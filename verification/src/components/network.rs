//! The identity under which the node is known in the network.

use vstd::prelude::*;

verus! {

/// The node's identity in the network: the key pair that was generated for it, as the bytes
/// that encode it.
#[derive(Debug, PartialEq, Eq)]
pub struct NetworkIdentity {
    keypair: Vec<u8>,
}

impl View for NetworkIdentity {
    type V = Seq<u8>;

    closed spec fn view(&self) -> Seq<u8> {
        self.keypair@
    }
}

impl NetworkIdentity {
    /// The identity of the key pair that was generated for the node.
    pub fn new(keypair: Vec<u8>) -> (identity: Self)
        ensures
            identity@ == keypair@,
    {
        NetworkIdentity { keypair }
    }

    /// The bytes of the key pair.
    pub fn keypair(&self) -> (keypair: &Vec<u8>)
        ensures
            keypair@ == self@,
    {
        &self.keypair
    }
}

} // verus!
