//! The requests that one component makes of another.  A request reaches the component that
//! serves it as an event; the answer goes back through the request's responder.

use vstd::prelude::*;

use crate::effect::Responder;
use crate::types::ProtocolVersion;

verus! {

/// A request to the storage component.
#[derive(Clone, Copy, Debug, PartialEq, Eq, Structural)]
pub enum StorageRequest {
    /// Keep the chainspec of the given version.
    PutChainspec {
        /// The version of the chainspec to keep.
        version: ProtocolVersion,
        /// Who waits for the answer.
        responder: Responder,
    },
}

/// A request to the contract runtime.
#[derive(Clone, Copy, Debug, PartialEq, Eq, Structural)]
pub enum ContractRuntimeRequest {
    /// Commit the genesis that the chainspec of the given version describes.
    CommitGenesis {
        /// The version of the chainspec whose genesis is to be committed.
        version: ProtocolVersion,
        /// Who waits for the answer.
        responder: Responder,
    },
}

/// A request to one of the components that serve requests.
#[derive(Clone, Copy, Debug, PartialEq, Eq, Structural)]
pub enum Request {
    /// A request to the storage component.
    Storage(StorageRequest),
    /// A request to the contract runtime.
    ContractRuntime(ContractRuntimeRequest),
}

} // verus!
