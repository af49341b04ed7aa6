//! Artifact packaging surface.
//!
//! Serializing artifacts and writing them to storage is input/output work
//! performed by the embedding application; the library contributes the
//! packager handle and the artifact format vocabulary that both sides
//! share.

use vstd::prelude::*;

verus! {

/// Packages IR, operator, and job artifacts for storage.
pub struct ArtifactPackager {}

/// On-disk format of a packaged artifact.
#[derive(Debug, Clone, Copy, PartialEq, Eq, Structural)]
pub enum ArtifactFormat {
    JsonL,
    Cbor,
    MessagePack,
    Npy,
    GraphML,
    Json,
}

impl ArtifactPackager {
    /// A fresh packager.
    pub fn new() -> (r: Self)
        ensures
            r == (ArtifactPackager {  }),
    {
        ArtifactPackager {}
    }
}

} // verus!
