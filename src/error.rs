use vstd::prelude::*;

verus! {

/// Why a structural parse failed.
#[derive(Clone, Copy, Debug, PartialEq, Eq, Structural)]
pub enum ParseFault {
    BaseUrl,
    JoinUrl,
    MissingSignatureHeader,
    MalformedSignature,
    MissingSignedHeader,
    VerifyKeyHex,
    VerifyKeyLength,
    VerifyKey,
    SignatureEncoding,
    SignatureLength,
}

/// Why a live response was not trusted.
#[derive(Clone, Copy, Debug, PartialEq, Eq, Structural)]
pub enum ResponseFault {
    DigestMismatch,
    InvalidDate,
    Stale,
    InvalidSignature,
}

/// Why a cached record was not trusted.
#[derive(Clone, Copy, Debug, PartialEq, Eq, Structural)]
pub enum CacheFault {
    InvalidDate,
    Expired,
    InvalidSignature,
    BadBody,
    Missing,
}

/// Errors reported by the verification subsystem.
#[derive(Clone, Copy, Debug, PartialEq, Eq, Structural)]
pub enum Error {
    ParseErr(ParseFault),
    BadResponse(ResponseFault),
    BadCache(CacheFault),
}

} // verus!
