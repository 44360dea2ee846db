//! The signature schemes a client accepts from the server during the TLS
//! handshake. The server's certificate is self-signed and not checked against
//! any authority; only the schemes offered are restricted.
use vstd::prelude::*;

verus! {

/// A TLS signature scheme the client is willing to verify.
#[derive(Debug, Clone, Copy, PartialEq, Eq)]
pub enum SignatureSchemeId {
    EcdsaNistp256Sha256,
    EcdsaNistp384Sha384,
    EcdsaNistp521Sha512,
    RsaPkcs1Sha256,
    RsaPkcs1Sha384,
    RsaPkcs1Sha512,
    RsaPssSha256,
    RsaPssSha384,
    RsaPssSha512,
}

/// The accepted schemes, in order of preference.
pub open spec fn accepted_schemes() -> Seq<SignatureSchemeId> {
    seq![
        SignatureSchemeId::EcdsaNistp256Sha256,
        SignatureSchemeId::EcdsaNistp384Sha384,
        SignatureSchemeId::EcdsaNistp521Sha512,
        SignatureSchemeId::RsaPkcs1Sha256,
        SignatureSchemeId::RsaPkcs1Sha384,
        SignatureSchemeId::RsaPkcs1Sha512,
        SignatureSchemeId::RsaPssSha256,
        SignatureSchemeId::RsaPssSha384,
        SignatureSchemeId::RsaPssSha512,
    ]
}

/// The schemes the client offers to verify.
pub fn supported_verify_schemes() -> (schemes: Vec<SignatureSchemeId>)
    ensures
        schemes@ == accepted_schemes(),
{
    let schemes = vec![
        SignatureSchemeId::EcdsaNistp256Sha256,
        SignatureSchemeId::EcdsaNistp384Sha384,
        SignatureSchemeId::EcdsaNistp521Sha512,
        SignatureSchemeId::RsaPkcs1Sha256,
        SignatureSchemeId::RsaPkcs1Sha384,
        SignatureSchemeId::RsaPkcs1Sha512,
        SignatureSchemeId::RsaPssSha256,
        SignatureSchemeId::RsaPssSha384,
        SignatureSchemeId::RsaPssSha512,
    ];
    assert(schemes@ =~= accepted_schemes());
    schemes
}

} // verus!
