//! What the benchmark clients ask of the certificate of a server.

use vstd::prelude::*;

verus! {

/// The signature schemes that a client offers.
#[derive(Clone, Copy, Debug, PartialEq, Eq, Structural)]
pub enum SignatureScheme {
    RsaPkcs1Sha256,
    EcdsaNistp256Sha256,
    Ed25519,
}

/// The schemes that a client offers, the preferred one first.
pub open spec fn offered_schemes() -> Seq<SignatureScheme> {
    seq![
        SignatureScheme::RsaPkcs1Sha256,
        SignatureScheme::EcdsaNistp256Sha256,
        SignatureScheme::Ed25519,
    ]
}

/// The check of a certificate that takes every certificate: the servers make
/// their own, and the benchmark is not about trust.
#[derive(Clone, Copy, Debug)]
pub struct SkipVerification;

impl SkipVerification {
    /// The schemes that a client offers, the preferred one first.
    pub fn supported_verify_schemes(&self) -> (schemes: Vec<SignatureScheme>)
        ensures
            schemes@ == offered_schemes(),
    {
        vec![
            SignatureScheme::RsaPkcs1Sha256,
            SignatureScheme::EcdsaNistp256Sha256,
            SignatureScheme::Ed25519,
        ]
    }
}

} // verus!
