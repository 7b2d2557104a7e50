use reallyme_cose::crypto_failure::{
    decrypt_error_from_crypto_error, key_unwrap_error_from_crypto_error, AeadFailureKind,
    CryptoFailure, KeyWrapFailureKind,
};
use reallyme_cose::CoseError;

#[test]
fn decrypt_error_mapping_preserves_authentication_and_backend_semantics() {
    let authentication = CryptoFailure::AeadDecrypt(AeadFailureKind::AuthenticationFailed);
    let backend = CryptoFailure::AeadDecrypt(AeadFailureKind::BackendFailure);

    assert_eq!(
        decrypt_error_from_crypto_error(authentication),
        CoseError::AuthenticationFailed,
    );
    assert_eq!(decrypt_error_from_crypto_error(backend), CoseError::Crypto);
}

#[test]
fn key_unwrap_error_mapping_separates_shape_integrity_and_backend_failures() {
    let error = |kind| CryptoFailure::KeyWrap(kind);

    assert_eq!(
        key_unwrap_error_from_crypto_error(error(KeyWrapFailureKind::IntegrityCheckFailed)),
        CoseError::KeyUnwrapFailed,
    );
    assert_eq!(
        key_unwrap_error_from_crypto_error(error(KeyWrapFailureKind::InvalidWrappedLength)),
        CoseError::InvalidRecipient,
    );
    assert_eq!(
        key_unwrap_error_from_crypto_error(error(KeyWrapFailureKind::BackendFailure)),
        CoseError::Crypto,
    );
}

#[test]
fn decrypt_errors_outside_the_aead_are_backend_failures() {
    assert_eq!(
        decrypt_error_from_crypto_error(CryptoFailure::InvalidCiphertextLength),
        CoseError::InvalidFormat,
    );
    assert_eq!(
        decrypt_error_from_crypto_error(CryptoFailure::AeadDecrypt(AeadFailureKind::ShortCiphertext)),
        CoseError::InvalidFormat,
    );
    assert_eq!(
        decrypt_error_from_crypto_error(CryptoFailure::AeadDecrypt(AeadFailureKind::LengthOverflow)),
        CoseError::ResourceLimitExceeded,
    );
    assert_eq!(decrypt_error_from_crypto_error(CryptoFailure::Other), CoseError::Crypto);
}

#[test]
fn key_unwrap_errors_outside_the_key_wrap_are_backend_failures() {
    assert_eq!(
        key_unwrap_error_from_crypto_error(CryptoFailure::KeyWrap(KeyWrapFailureKind::LengthOverflow)),
        CoseError::ResourceLimitExceeded,
    );
    assert_eq!(
        key_unwrap_error_from_crypto_error(CryptoFailure::AeadDecrypt(
            AeadFailureKind::AuthenticationFailed
        )),
        CoseError::Crypto,
    );
}
