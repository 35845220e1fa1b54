//! Errors of the cryptographic helpers.

use vstd::prelude::*;

verus! {

/// A key or a signature could not be decoded.
#[derive(Debug)]
pub enum Error {
    /// The bytes do not make a key of the named algorithm.
    AsymmetricKey(String),
    /// The text is not base-64.
    FromBase64(String),
}

} // verus!
