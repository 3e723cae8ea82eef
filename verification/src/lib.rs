//! Core of a Minecraft-style launcher: rule evaluation over the host
//! platform, argument-template flattening and `${key}` substitution,
//! classpath construction, and Java runtime version handling.
//!
//! All path and separator handling is parameterised by an explicit
//! [`rules::OsKind`] value, so the logic is deterministic and host detection
//! stays with the caller.

pub mod text;

pub mod argument;
pub mod assetindex;
pub mod classpath;
pub mod client;
pub mod configuration;
pub mod datamap;
pub mod downloads;
pub mod error;
pub mod javaversion;
pub mod launcher;
pub mod library;
pub mod java;
pub mod rules;
pub mod util;
pub mod version;
