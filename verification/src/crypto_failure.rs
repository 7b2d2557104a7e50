//! Failures reported by the cryptographic provider, and the public COSE
//! error each one is exposed as.
//!
//! The provider's failure enums are open to new variants; each enum here
//! ends in `Other` for every variant this library does not classify, and
//! every such failure is reported as a plain [`CoseError::Crypto`] so that
//! no backend detail crosses the public error boundary.

use vstd::prelude::*;

use crate::error::CoseError;

verus! {

/// Why an AEAD operation failed.
#[derive(Clone, Copy, Debug, PartialEq, Eq, Structural)]
pub enum AeadFailureKind {
    /// The tag did not authenticate the ciphertext and AAD.
    AuthenticationFailed,
    /// The ciphertext was shorter than the tag.
    ShortCiphertext,
    /// A length computation overflowed.
    LengthOverflow,
    /// The key was malformed.
    InvalidKeyMaterial,
    /// The backend produced output of an unexpected length.
    InvalidOutputLength,
    /// The backend failed.
    BackendFailure,
    /// Any failure this library does not classify.
    Other,
}

/// Why an AES Key Wrap operation failed.
#[derive(Clone, Copy, Debug, PartialEq, Eq, Structural)]
pub enum KeyWrapFailureKind {
    /// The unwrapped key failed its integrity check.
    IntegrityCheckFailed,
    /// The wrapped key had an invalid length.
    InvalidWrappedLength,
    /// A length computation overflowed.
    LengthOverflow,
    /// The key-encryption key had an invalid length.
    InvalidKekLength,
    /// The key to wrap had an invalid length.
    InvalidPlaintextLength,
    /// The backend failed.
    BackendFailure,
    /// Any failure this library does not classify.
    Other,
}

/// Why a signature operation failed.
#[derive(Clone, Copy, Debug, PartialEq, Eq, Structural)]
pub enum SignatureFailureKind {
    /// The private key was rejected.
    InvalidPrivateKey,
    /// The public key was rejected.
    InvalidPublicKey,
    /// The message was rejected.
    InvalidMessage,
    /// A secure enclave rejected the key.
    SecureEnclaveRejectedKey,
    /// The signature did not verify.
    InvalidSignature,
    /// A secure enclave was unavailable.
    SecureEnclaveUnavailable,
    /// The backend failed.
    BackendFailure,
    /// Key generation failed.
    KeyGenerationFailed,
    /// Any failure this library does not classify.
    Other,
}

/// A failure of a cryptographic primitive.
#[derive(Clone, Copy, Debug, PartialEq, Eq, Structural)]
pub enum CryptoFailure {
    /// AEAD decryption failed.
    AeadDecrypt(AeadFailureKind),
    /// A ciphertext had an invalid length.
    InvalidCiphertextLength,
    /// A key was rejected.
    InvalidKey,
    /// AES Key Wrap failed.
    KeyWrap(KeyWrapFailureKind),
    /// A signature operation failed.
    Signature(SignatureFailureKind),
    /// Any failure this library does not classify.
    Other,
}

/// A failure of algorithm dispatch.
#[derive(Clone, Copy, Debug, PartialEq, Eq, Structural)]
pub enum AlgorithmFailure {
    /// The signature or key algorithm is unsupported.
    UnsupportedAlgorithm,
    /// The AEAD algorithm is unsupported.
    UnsupportedAeadAlgorithm,
    /// The hash algorithm is unsupported.
    UnsupportedHashAlgorithm,
    /// The MAC algorithm is unsupported.
    UnsupportedMacAlgorithm,
    /// The key was rejected.
    InvalidKey,
    /// The signature did not verify.
    SignatureInvalid,
    /// The primitive failed.
    Crypto(CryptoFailure),
    /// Any failure this library does not classify.
    Other,
}

/// The public error of a signature failure; signing and verification
/// classify signature failures alike.
pub open spec fn spec_signature_failure_error(kind: SignatureFailureKind) -> CoseError {
    match kind {
        SignatureFailureKind::InvalidPrivateKey | SignatureFailureKind::InvalidPublicKey
        | SignatureFailureKind::InvalidMessage | SignatureFailureKind::SecureEnclaveRejectedKey => {
            CoseError::InvalidKeyMaterial
        },
        SignatureFailureKind::InvalidSignature => CoseError::InvalidSignature,
        SignatureFailureKind::SecureEnclaveUnavailable => CoseError::ProviderUnavailable,
        _ => CoseError::Crypto,
    }
}

/// The public error of an algorithm-dispatch failure of a signature
/// operation.
pub open spec fn spec_algorithm_failure_error(error: AlgorithmFailure) -> CoseError {
    match error {
        AlgorithmFailure::UnsupportedAlgorithm | AlgorithmFailure::UnsupportedAeadAlgorithm
        | AlgorithmFailure::UnsupportedHashAlgorithm | AlgorithmFailure::UnsupportedMacAlgorithm => {
            CoseError::UnsupportedAlgorithm
        },
        AlgorithmFailure::InvalidKey | AlgorithmFailure::Crypto(CryptoFailure::InvalidKey) => {
            CoseError::InvalidKeyMaterial
        },
        AlgorithmFailure::SignatureInvalid => CoseError::InvalidSignature,
        AlgorithmFailure::Crypto(CryptoFailure::Signature(kind)) => spec_signature_failure_error(kind),
        _ => CoseError::Crypto,
    }
}

/// The public error of a failed AEAD decryption.
pub open spec fn spec_decrypt_failure_error(error: CryptoFailure) -> CoseError {
    match error {
        CryptoFailure::AeadDecrypt(AeadFailureKind::AuthenticationFailed) => CoseError::AuthenticationFailed,
        CryptoFailure::AeadDecrypt(AeadFailureKind::ShortCiphertext) => CoseError::InvalidFormat,
        CryptoFailure::AeadDecrypt(AeadFailureKind::LengthOverflow) => CoseError::ResourceLimitExceeded,
        CryptoFailure::InvalidCiphertextLength => CoseError::InvalidFormat,
        _ => CoseError::Crypto,
    }
}

/// The public error of a failed AES Key Wrap unwrap.
pub open spec fn spec_key_unwrap_failure_error(error: CryptoFailure) -> CoseError {
    match error {
        CryptoFailure::KeyWrap(KeyWrapFailureKind::IntegrityCheckFailed) => CoseError::KeyUnwrapFailed,
        CryptoFailure::KeyWrap(KeyWrapFailureKind::InvalidWrappedLength) => CoseError::InvalidRecipient,
        CryptoFailure::KeyWrap(KeyWrapFailureKind::LengthOverflow) => CoseError::ResourceLimitExceeded,
        _ => CoseError::Crypto,
    }
}

/// The public error of a failed ML-KEM encapsulation.
pub open spec fn spec_encapsulate_failure_error(error: CryptoFailure) -> CoseError {
    match error {
        CryptoFailure::InvalidKey => CoseError::InvalidKeyMaterial,
        _ => CoseError::Crypto,
    }
}

fn sign_error_from_signature_failure(kind: SignatureFailureKind) -> (r: CoseError)
    ensures
        r == spec_signature_failure_error(kind),
{
    match kind {
        SignatureFailureKind::InvalidPrivateKey | SignatureFailureKind::InvalidPublicKey
        | SignatureFailureKind::InvalidMessage | SignatureFailureKind::SecureEnclaveRejectedKey => {
            CoseError::InvalidKeyMaterial
        },
        SignatureFailureKind::InvalidSignature => CoseError::InvalidSignature,
        SignatureFailureKind::SecureEnclaveUnavailable => CoseError::ProviderUnavailable,
        SignatureFailureKind::BackendFailure | SignatureFailureKind::KeyGenerationFailed
        | SignatureFailureKind::Other => CoseError::Crypto,
    }
}

fn verify_error_from_signature_failure(kind: SignatureFailureKind) -> (r: CoseError)
    ensures
        r == spec_signature_failure_error(kind),
{
    match kind {
        SignatureFailureKind::InvalidPublicKey | SignatureFailureKind::InvalidPrivateKey
        | SignatureFailureKind::InvalidMessage | SignatureFailureKind::SecureEnclaveRejectedKey => {
            CoseError::InvalidKeyMaterial
        },
        SignatureFailureKind::InvalidSignature => CoseError::InvalidSignature,
        SignatureFailureKind::SecureEnclaveUnavailable => CoseError::ProviderUnavailable,
        SignatureFailureKind::BackendFailure | SignatureFailureKind::KeyGenerationFailed
        | SignatureFailureKind::Other => CoseError::Crypto,
    }
}

/// Classify an algorithm-dispatch failure of a signing operation.
pub fn sign_error_from_algorithm_error(error: AlgorithmFailure) -> (r: CoseError)
    ensures
        r == spec_algorithm_failure_error(error),
{
    match error {
        AlgorithmFailure::UnsupportedAlgorithm | AlgorithmFailure::UnsupportedAeadAlgorithm
        | AlgorithmFailure::UnsupportedHashAlgorithm | AlgorithmFailure::UnsupportedMacAlgorithm => {
            CoseError::UnsupportedAlgorithm
        },
        AlgorithmFailure::InvalidKey | AlgorithmFailure::Crypto(CryptoFailure::InvalidKey) => {
            CoseError::InvalidKeyMaterial
        },
        AlgorithmFailure::SignatureInvalid => CoseError::InvalidSignature,
        AlgorithmFailure::Crypto(CryptoFailure::Signature(kind)) => sign_error_from_signature_failure(kind),
        AlgorithmFailure::Crypto(_) => CoseError::Crypto,
        AlgorithmFailure::Other => CoseError::Crypto,
    }
}

/// Classify an algorithm-dispatch failure of a verification operation.
pub fn verify_error_from_algorithm_error(error: AlgorithmFailure) -> (r: CoseError)
    ensures
        r == spec_algorithm_failure_error(error),
{
    match error {
        AlgorithmFailure::UnsupportedAlgorithm | AlgorithmFailure::UnsupportedAeadAlgorithm
        | AlgorithmFailure::UnsupportedHashAlgorithm | AlgorithmFailure::UnsupportedMacAlgorithm => {
            CoseError::UnsupportedAlgorithm
        },
        AlgorithmFailure::InvalidKey | AlgorithmFailure::Crypto(CryptoFailure::InvalidKey) => {
            CoseError::InvalidKeyMaterial
        },
        AlgorithmFailure::SignatureInvalid => CoseError::InvalidSignature,
        AlgorithmFailure::Crypto(CryptoFailure::Signature(kind)) => verify_error_from_signature_failure(kind),
        AlgorithmFailure::Crypto(_) => CoseError::Crypto,
        AlgorithmFailure::Other => CoseError::Crypto,
    }
}

/// Classify a failed AEAD decryption. Only an authentication failure is
/// reported as [`CoseError::AuthenticationFailed`]; new backend failure
/// classes are operational failures.
pub fn decrypt_error_from_crypto_error(error: CryptoFailure) -> (r: CoseError)
    ensures
        r == spec_decrypt_failure_error(error),
{
    match error {
        CryptoFailure::AeadDecrypt(kind) => match kind {
            AeadFailureKind::AuthenticationFailed => CoseError::AuthenticationFailed,
            AeadFailureKind::ShortCiphertext => CoseError::InvalidFormat,
            AeadFailureKind::LengthOverflow => CoseError::ResourceLimitExceeded,
            AeadFailureKind::InvalidKeyMaterial | AeadFailureKind::InvalidOutputLength
            | AeadFailureKind::BackendFailure | AeadFailureKind::Other => CoseError::Crypto,
        },
        CryptoFailure::InvalidCiphertextLength => CoseError::InvalidFormat,
        CryptoFailure::InvalidKey => CoseError::Crypto,
        _ => CoseError::Crypto,
    }
}

/// Classify a failed AES Key Wrap unwrap, separating shape, integrity and
/// backend failures.
pub fn key_unwrap_error_from_crypto_error(error: CryptoFailure) -> (r: CoseError)
    ensures
        r == spec_key_unwrap_failure_error(error),
{
    match error {
        CryptoFailure::KeyWrap(kind) => match kind {
            KeyWrapFailureKind::IntegrityCheckFailed => CoseError::KeyUnwrapFailed,
            KeyWrapFailureKind::InvalidWrappedLength => CoseError::InvalidRecipient,
            KeyWrapFailureKind::LengthOverflow => CoseError::ResourceLimitExceeded,
            KeyWrapFailureKind::InvalidKekLength | KeyWrapFailureKind::InvalidPlaintextLength
            | KeyWrapFailureKind::BackendFailure | KeyWrapFailureKind::Other => CoseError::Crypto,
        },
        _ => CoseError::Crypto,
    }
}

/// Classify a failed ML-KEM encapsulation: a rejected public key is invalid
/// key material, anything else a primitive failure.
pub fn encapsulate_error_from_crypto_error(error: CryptoFailure) -> (r: CoseError)
    ensures
        r == spec_encapsulate_failure_error(error),
{
    match error {
        CryptoFailure::InvalidKey => CoseError::InvalidKeyMaterial,
        _ => CoseError::Crypto,
    }
}

/// Decryption reports an authentication failure for exactly the AEAD
/// authentication failure, and never reports unclassified failures as
/// anything but a primitive failure.
pub proof fn lemma_decrypt_failure_fails_closed(error: CryptoFailure)
    ensures
        (spec_decrypt_failure_error(error) == CoseError::AuthenticationFailed) <==> error
            == CryptoFailure::AeadDecrypt(AeadFailureKind::AuthenticationFailed),
        error == CryptoFailure::Other ==> spec_decrypt_failure_error(error) == CoseError::Crypto,
        error == CryptoFailure::AeadDecrypt(AeadFailureKind::Other) ==> spec_decrypt_failure_error(
            error,
        ) == CoseError::Crypto,
{
}

/// Key unwrapping reports an unwrap failure for exactly the integrity-check
/// failure.
pub proof fn lemma_key_unwrap_failure_classification(error: CryptoFailure)
    ensures
        (spec_key_unwrap_failure_error(error) == CoseError::KeyUnwrapFailed) <==> error
            == CryptoFailure::KeyWrap(KeyWrapFailureKind::IntegrityCheckFailed),
        (spec_key_unwrap_failure_error(error) == CoseError::InvalidRecipient) <==> error
            == CryptoFailure::KeyWrap(KeyWrapFailureKind::InvalidWrappedLength),
{
}

} // verus!
