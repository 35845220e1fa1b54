//! The data that components exchange.

use vstd::prelude::*;

pub mod chainspec;
pub mod motes;

pub use chainspec::Chainspec;

verus! {

/// The version of the protocol that a chainspec describes.
#[derive(Clone, Copy, Debug, PartialEq, Eq, Structural)]
pub struct ProtocolVersion {
    /// The major version.
    pub major: u64,
    /// The minor version.
    pub minor: u64,
    /// The patch version.
    pub patch: u64,
}

impl ProtocolVersion {
    /// The version `major.minor.patch`.
    pub fn new(major: u64, minor: u64, patch: u64) -> (version: Self)
        ensures
            version == (ProtocolVersion { major, minor, patch }),
    {
        ProtocolVersion { major, minor, patch }
    }
}

} // verus!
