use reallyme_cose::boundary::optional_limit_to_usize;
use reallyme_cose::boundary::{boundary_error_from_failure, CoseErrorReason, CoseWireErrorBranch};
use reallyme_cose::failure::CoseFailure;
use reallyme_cose::boundary::CoseErrorReason as Reason;
use reallyme_cose::boundary::CoseWireErrorBranch::{Backend, Primitive, Provider};
use reallyme_cose::CoseError;
use reallyme_cose::CoseError as Native;

#[test]
fn canonical_failures_preserve_exact_wire_branch_and_reason() {
    let cases = [
        (Native::Cbor, Primitive, Reason::CommonCbor),
        (
            Native::UnsupportedAlgorithm,
            Provider,
            Reason::CommonUnsupportedAlgorithm,
        ),
        (
            Native::MissingPayload,
            Primitive,
            Reason::Sign1MissingPayload,
        ),
        (
            Native::InvalidSignature,
            Primitive,
            Reason::Sign1InvalidSignature,
        ),
        (
            Native::InvalidSignatureEncoding,
            Primitive,
            Reason::Sign1InvalidSignatureEncoding,
        ),
        (Native::Crypto, Backend, Reason::CommonCryptoFailed),
        (
            Native::ProviderUnavailable,
            Provider,
            Reason::ProviderUnavailable,
        ),
        (
            Native::InvalidMultikey,
            Primitive,
            Reason::MultikeyInvalidMultikey,
        ),
        (
            Native::MissingKeyMaterial,
            Primitive,
            Reason::KeyMissingKeyMaterial,
        ),
        (
            Native::InvalidKeyMaterial,
            Primitive,
            Reason::KeyInvalidKeyMaterial,
        ),
        (Native::MissingKid, Primitive, Reason::Sign1MissingKid),
        (
            Native::KeyNotResolved,
            Primitive,
            Reason::Sign1KeyNotResolved,
        ),
        (
            Native::InvalidFormat,
            Primitive,
            Reason::CommonInvalidFormat,
        ),
        (
            Native::ResourceLimitExceeded,
            Primitive,
            Reason::CommonResourceLimitExceeded,
        ),
        (
            Native::NonCanonicalCbor,
            Primitive,
            Reason::CommonNonCanonicalCbor,
        ),
        (
            Native::UnexpectedCborTag,
            Primitive,
            Reason::CommonUnexpectedCborTag,
        ),
        (
            Native::DuplicateMapLabel,
            Primitive,
            Reason::CommonDuplicateMapLabel,
        ),
        (
            Native::UnsupportedCriticalHeader,
            Primitive,
            Reason::Sign1UnsupportedCriticalHeader,
        ),
        (
            Native::UnprotectedHeaderNotAllowed,
            Primitive,
            Reason::Sign1UnprotectedHeaderNotAllowed,
        ),
        (
            Native::MissingPrivateKey,
            Primitive,
            Reason::Sign1MissingPrivateKey,
        ),
        (
            Native::MissingCiphertext,
            Primitive,
            Reason::EncryptMissingCiphertext,
        ),
        (Native::InvalidIv, Primitive, Reason::EncryptInvalidIv),
        (
            Native::InvalidRecipient,
            Primitive,
            Reason::EncryptInvalidRecipient,
        ),
        (
            Native::MissingEncapsulatedKey,
            Primitive,
            Reason::EncryptMissingEncapsulatedKey,
        ),
        (
            Native::InvalidEncapsulatedKey,
            Primitive,
            Reason::EncryptInvalidEncapsulatedKey,
        ),
        (
            Native::AuthenticationFailed,
            Primitive,
            Reason::EncryptAuthenticationFailed,
        ),
        (
            Native::KeyUnwrapFailed,
            Primitive,
            Reason::EncryptKeyUnwrapFailed,
        ),
        (Native::KidMismatch, Primitive, Reason::EncryptKidMismatch),
    ];

    for (native, expected_branch, expected_reason) in cases {
        let wire = boundary_error_from_failure(CoseFailure::from(native));
        assert_eq!(wire.branch(), expected_branch);
        assert_eq!(wire.reason(), expected_reason);
    }
}

#[test]
fn encrypt_profile_reasons_reach_the_boundary() {
    let wire = boundary_error_from_failure(CoseFailure::from_encrypt_error(CoseError::MissingKid));
    assert_eq!(wire.branch(), CoseWireErrorBranch::Primitive);
    assert_eq!(wire.reason(), CoseErrorReason::EncryptMissingKid);

    let wire = boundary_error_from_failure(CoseFailure::from_encrypt_error(
        CoseError::UnprotectedHeaderNotAllowed,
    ));
    assert_eq!(wire.reason(), CoseErrorReason::EncryptUnprotectedHeaderNotAllowed);

    let wire = boundary_error_from_failure(CoseFailure::sign1_kid_key_mismatch());
    assert_eq!(wire.branch(), CoseWireErrorBranch::Primitive);
    assert_eq!(wire.reason(), CoseErrorReason::Sign1KidKeyMismatch);
    assert_eq!(CoseFailure::sign1_kid_key_mismatch().into_native_error(), CoseError::KeyNotResolved);
}

#[test]
fn request_limits_default_on_zero_and_stay_within_the_message_limit() {
    assert_eq!(optional_limit_to_usize(0, 65_536, 1_000_000), Ok(65_536));
    assert_eq!(optional_limit_to_usize(4_096, 65_536, 1_000_000), Ok(4_096));
    let error = optional_limit_to_usize(1_000_001, 65_536, 1_000_000).expect_err("too large");
    assert_eq!(error.branch(), CoseWireErrorBranch::Primitive);
    assert_eq!(error.reason(), CoseErrorReason::CommonResourceLimitExceeded);
}
