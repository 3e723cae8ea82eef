//! The Java requirement named by the version manifest.

use vstd::prelude::*;

verus! {

/// Which Java component and major version the client asks for.
#[derive(Debug, Clone)]
pub struct ClientJavaVersion {
    /// The runtime component's name.
    pub component: String,
    /// The required major version.
    pub major_version: usize,
}

} // verus!
