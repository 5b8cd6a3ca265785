//! Cargo flag for selecting the relevant crate.

use vstd::prelude::*;

verus! {

/// Cargo flag for selecting the relevant crate.
#[derive(Debug)]
pub struct Manifest {
    /// Path to Cargo.toml.
    /// All commands run as if they run in the directory of the Cargo.toml
    /// set.
    pub manifest_path: Option<String>,
}

impl Default for Manifest {
    fn default() -> (m: Manifest)
        ensures
            m.manifest_path is None,
    {
        Manifest { manifest_path: None }
    }
}

} // verus!
