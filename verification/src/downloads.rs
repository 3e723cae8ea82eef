//! Download descriptors carried by the version manifest. The core never
//! downloads anything; these are data carried through for callers.

use vstd::prelude::*;

verus! {

/// One downloadable artifact: its checksum, size and location.
#[derive(Debug, Clone)]
pub struct DownloadableObject {
    /// The SHA-1 of the jar.
    pub sha1: String,
    /// The size of the jar in bytes.
    pub size: usize,
    /// The URL where the jar is hosted.
    pub url: String,
}

/// The manifest's download section.
#[derive(Debug, Clone)]
pub struct Downloads {
    /// The `client.jar` download information.
    pub client: Option<DownloadableObject>,
    /// The obfuscation maps for this client version.
    pub client_mappings: Option<DownloadableObject>,
    /// The server download information.
    pub server: Option<DownloadableObject>,
    /// The obfuscation maps for this server version.
    pub server_mappings: Option<DownloadableObject>,
}

} // verus!
