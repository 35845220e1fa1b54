//! The identity under which the node speaks to its peers.

use vstd::prelude::*;

verus! {

/// An error that occurs when a `SmallNetworkIdentity` is created.
#[derive(Debug, PartialEq, Eq)]
pub enum SmallNetworkIdentityError {
    /// The TLS certificate could not be generated, for the reason given.
    CouldNotGenerateTlsCertificate(String),
    /// The TLS certificate that was generated is not valid, for the reason given.
    ValidationError(String),
}

/// The node's identity in the small network: the secret key and the TLS certificate that were
/// generated for it, each as the bytes that encode it.
#[derive(Debug, PartialEq, Eq)]
pub struct SmallNetworkIdentity {
    secret_key: Vec<u8>,
    tls_certificate: Vec<u8>,
}

/// A small network identity as the contracts speak of it.
pub ghost struct SmallNetworkIdentityView {
    /// The bytes of the secret key.
    pub secret_key: Seq<u8>,
    /// The bytes of the TLS certificate.
    pub tls_certificate: Seq<u8>,
}

impl View for SmallNetworkIdentity {
    type V = SmallNetworkIdentityView;

    closed spec fn view(&self) -> SmallNetworkIdentityView {
        SmallNetworkIdentityView {
            secret_key: self.secret_key@,
            tls_certificate: self.tls_certificate@,
        }
    }
}

impl SmallNetworkIdentity {
    /// The identity of the secret key and the TLS certificate that were generated for the node.
    pub fn new(secret_key: Vec<u8>, tls_certificate: Vec<u8>) -> (identity: Self)
        ensures
            identity@ == (SmallNetworkIdentityView {
                secret_key: secret_key@,
                tls_certificate: tls_certificate@,
            }),
    {
        SmallNetworkIdentity { secret_key, tls_certificate }
    }

    /// The bytes of the secret key.
    pub fn secret_key(&self) -> (secret_key: &Vec<u8>)
        ensures
            secret_key@ == self@.secret_key,
    {
        &self.secret_key
    }

    /// The bytes of the TLS certificate.
    pub fn tls_certificate(&self) -> (tls_certificate: &Vec<u8>)
        ensures
            tls_certificate@ == self@.tls_certificate,
    {
        &self.tls_certificate
    }
}

} // verus!
