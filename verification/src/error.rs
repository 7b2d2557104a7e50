use vstd::prelude::*;

verus! {

/// Error type for COSE encoding, signing, verification, key, and policy operations.
///
/// Every variant is a fixed tag: no payload, key material, or backend text is
/// ever carried by an error value.
#[non_exhaustive]
#[derive(Clone, Copy, Debug, PartialEq, Eq, Structural)]
pub enum CoseError {
    /// CBOR serialization or parsing failed.
    Cbor,
    /// The requested algorithm is not supported by the current COSE mapping.
    UnsupportedAlgorithm,
    /// A COSE_Sign1 object did not contain an attached payload where one was required.
    MissingPayload,
    /// Signature verification failed for otherwise well-formed signature bytes.
    InvalidSignature,
    /// Signature bytes were not encoded according to the selected algorithm's wire format.
    InvalidSignatureEncoding,
    /// The configured cryptographic backend rejected the operation.
    Crypto,
    /// The requested cryptographic provider is unavailable in this runtime.
    ProviderUnavailable,
    /// A Multikey value was malformed or could not be converted safely.
    InvalidMultikey,
    /// Required public or private key bytes were absent.
    MissingKeyMaterial,
    /// Key bytes were present but did not match the expected COSE key shape.
    InvalidKeyMaterial,
    /// A policy required `kid` but the COSE object did not provide one.
    MissingKid,
    /// A `kid` was present, but the caller's resolver did not return a key.
    KeyNotResolved,
    /// The COSE object is structurally invalid for the requested operation.
    InvalidFormat,
    /// Encoded input exceeded the crate's deterministic resource limits.
    ResourceLimitExceeded,
    /// Encoded input used indefinite-length or otherwise non-canonical CBOR.
    NonCanonicalCbor,
    /// Encoded input used CBOR tags outside the supported profile.
    UnexpectedCborTag,
    /// Encoded input repeated a CBOR map label where uniqueness is required.
    DuplicateMapLabel,
    /// A critical protected header was present but is not supported.
    UnsupportedCriticalHeader,
    /// An unprotected header carried fields that must be integrity protected.
    UnprotectedHeaderNotAllowed,
    /// Private key material was required but absent.
    MissingPrivateKey,
    /// A COSE encryption object did not contain an attached ciphertext.
    MissingCiphertext,
    /// A COSE encryption object used an invalid or misplaced IV.
    InvalidIv,
    /// A COSE encryption object did not contain exactly one supported recipient.
    InvalidRecipient,
    /// The recipient did not contain the ML-KEM encapsulated key header.
    MissingEncapsulatedKey,
    /// The ML-KEM encapsulated key was malformed for the selected parameter set.
    InvalidEncapsulatedKey,
    /// The authenticated ciphertext, external AAD, or derived key did not verify.
    AuthenticationFailed,
    /// AES Key Wrap integrity verification failed for the recipient CEK.
    KeyUnwrapFailed,
    /// A required key identifier was present but did not match the selected key.
    KidMismatch,
}

/// The description of each error.
pub open spec fn spec_message(error: CoseError) -> Seq<char> {
    match error {
        CoseError::Cbor => "cbor encoding/decoding error"@,
        CoseError::UnsupportedAlgorithm => "unsupported algorithm"@,
        CoseError::MissingPayload => "missing payload"@,
        CoseError::InvalidSignature => "invalid signature"@,
        CoseError::InvalidSignatureEncoding => "invalid signature encoding"@,
        CoseError::Crypto => "crypto error"@,
        CoseError::ProviderUnavailable => "cryptographic provider unavailable"@,
        CoseError::InvalidMultikey => "invalid multikey"@,
        CoseError::MissingKeyMaterial => "missing key material"@,
        CoseError::InvalidKeyMaterial => "invalid key material"@,
        CoseError::MissingKid => "missing kid"@,
        CoseError::KeyNotResolved => "key not resolved"@,
        CoseError::InvalidFormat => "invalid COSE format"@,
        CoseError::ResourceLimitExceeded => "resource limit exceeded"@,
        CoseError::NonCanonicalCbor => "non-canonical CBOR"@,
        CoseError::UnexpectedCborTag => "unexpected CBOR tag"@,
        CoseError::DuplicateMapLabel => "duplicate CBOR map label"@,
        CoseError::UnsupportedCriticalHeader => "unsupported critical header"@,
        CoseError::UnprotectedHeaderNotAllowed => "unprotected header not allowed"@,
        CoseError::MissingPrivateKey => "missing private key material"@,
        CoseError::MissingCiphertext => "missing ciphertext"@,
        CoseError::InvalidIv => "invalid IV"@,
        CoseError::InvalidRecipient => "invalid recipient"@,
        CoseError::MissingEncapsulatedKey => "missing encapsulated key"@,
        CoseError::InvalidEncapsulatedKey => "invalid encapsulated key"@,
        CoseError::AuthenticationFailed => "authentication failed"@,
        CoseError::KeyUnwrapFailed => "key unwrap failed"@,
        CoseError::KidMismatch => "kid mismatch"@,
    }
}

impl CoseError {
    /// Human-readable, non-sensitive description of the error.
    pub fn message(&self) -> (r: &'static str)
        ensures
            r@ == spec_message(*self),
    {
        match self {
            CoseError::Cbor => "cbor encoding/decoding error",
            CoseError::UnsupportedAlgorithm => "unsupported algorithm",
            CoseError::MissingPayload => "missing payload",
            CoseError::InvalidSignature => "invalid signature",
            CoseError::InvalidSignatureEncoding => "invalid signature encoding",
            CoseError::Crypto => "crypto error",
            CoseError::ProviderUnavailable => "cryptographic provider unavailable",
            CoseError::InvalidMultikey => "invalid multikey",
            CoseError::MissingKeyMaterial => "missing key material",
            CoseError::InvalidKeyMaterial => "invalid key material",
            CoseError::MissingKid => "missing kid",
            CoseError::KeyNotResolved => "key not resolved",
            CoseError::InvalidFormat => "invalid COSE format",
            CoseError::ResourceLimitExceeded => "resource limit exceeded",
            CoseError::NonCanonicalCbor => "non-canonical CBOR",
            CoseError::UnexpectedCborTag => "unexpected CBOR tag",
            CoseError::DuplicateMapLabel => "duplicate CBOR map label",
            CoseError::UnsupportedCriticalHeader => "unsupported critical header",
            CoseError::UnprotectedHeaderNotAllowed => "unprotected header not allowed",
            CoseError::MissingPrivateKey => "missing private key material",
            CoseError::MissingCiphertext => "missing ciphertext",
            CoseError::InvalidIv => "invalid IV",
            CoseError::InvalidRecipient => "invalid recipient",
            CoseError::MissingEncapsulatedKey => "missing encapsulated key",
            CoseError::InvalidEncapsulatedKey => "invalid encapsulated key",
            CoseError::AuthenticationFailed => "authentication failed",
            CoseError::KeyUnwrapFailed => "key unwrap failed",
            CoseError::KidMismatch => "kid mismatch",
        }
    }
}

} // verus!
