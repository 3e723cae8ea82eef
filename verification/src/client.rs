//! The version manifest (`client.json`): arguments, libraries, and the
//! version's metadata. Reading and decoding the file from disk is the
//! caller's concern; the core consumes the decoded structure.

use vstd::prelude::*;
use crate::argument::Arguments;
use crate::assetindex::AssetIndex;
use crate::downloads::Downloads;
use crate::javaversion::ClientJavaVersion;
use crate::library::Library;

verus! {

/// The structure of a `client.json` version descriptor.
#[derive(Debug, Clone)]
pub struct ClientFile {
    /// The conditional argument templates, JVM and game.
    pub arguments: Arguments,
    /// The version's asset index.
    pub asset_index: AssetIndex,
    /// The assets version name.
    pub assets: String,
    /// 1 for recent versions of the game, 0 for older ones; tells a
    /// launcher whether to warn about missing player-safety features.
    pub compliance_level: Option<u8>,
    /// The version's downloads.
    pub downloads: Downloads,
    /// The name of this version client (e.g. `1.14.4`).
    pub id: String,
    /// The Java requirement.
    pub java_version: ClientJavaVersion,
    /// The libraries the client loads.
    pub libraries: Vec<Library>,
    /// The class the runtime starts.
    pub main_class: String,
    /// The minimum launcher version able to run this client.
    pub minimum_launcher_version: usize,
    /// When the version was released.
    pub release_time: String,
    /// When the version was last touched.
    pub time: String,
    /// The version's kind (release, snapshot, and so on).
    pub kind: String,
}

} // verus!
