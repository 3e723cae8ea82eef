//! The asset index entry of the version manifest.

use vstd::prelude::*;

verus! {

/// Where the version's assets live and how to validate them.
#[derive(Debug, Clone)]
pub struct AssetIndex {
    /// The assets version.
    pub id: String,
    /// The SHA-1 of the assets file.
    pub sha1: String,
    /// The size of the version.
    pub size: usize,
    /// The total size of the version.
    pub total_size: usize,
    /// Undocumented flag carried through from the manifest.
    pub known: Option<bool>,
    /// The URL the assets are downloaded from.
    pub url: String,
}

} // verus!
