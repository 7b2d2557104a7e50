//! Public COSE profile limits and entrypoint-specific validation.

use vstd::prelude::*;

use super::validate::{spec_validate_cbor_bytes, validate_cbor_bytes, CborItemRole};
use crate::error::CoseError;

verus! {

/// Maximum accepted encoded COSE_Sign1 size.
pub const MAX_COSE_SIGN1_BYTES: usize = 65_536;

/// Maximum accepted encoded COSE_Key size.
pub const MAX_COSE_KEY_BYTES: usize = 16_384;

/// Maximum accepted encoded `COSE_Encrypt` size.
pub const MAX_COSE_ENCRYPT_BYTES: usize = 1_114_112;

/// Maximum accepted detached payload size for signing and verification.
pub const MAX_DETACHED_PAYLOAD_BYTES: usize = 1_048_576;

/// Boundary check for an encoded COSE_Sign1 (tagged or untagged) of at most
/// `max_len` bytes.
pub fn validate_cose_sign1_bytes_with_limit(bytes: &[u8], max_len: usize) -> (r: Result<
    (),
    CoseError,
>)
    ensures
        r == spec_validate_cbor_bytes(bytes@, max_len as int, CborItemRole::CoseSign1Top),
{
    validate_cbor_bytes(bytes, max_len, CborItemRole::CoseSign1Top)
}

/// Boundary check for an encoded `COSE_Encrypt` (tagged or untagged).
pub fn validate_cose_encrypt_bytes(bytes: &[u8]) -> (r: Result<(), CoseError>)
    ensures
        r == spec_validate_cbor_bytes(
            bytes@,
            MAX_COSE_ENCRYPT_BYTES as int,
            CborItemRole::CoseEncryptTop,
        ),
{
    validate_cbor_bytes(bytes, MAX_COSE_ENCRYPT_BYTES, CborItemRole::CoseEncryptTop)
}

/// Boundary check for an encoded COSE_Key: one untagged map whose keys are in
/// core deterministic (bytewise) order.
pub fn validate_cose_key_bytes(bytes: &[u8]) -> (r: Result<(), CoseError>)
    ensures
        r == spec_validate_cbor_bytes(
            bytes@,
            MAX_COSE_KEY_BYTES as int,
            CborItemRole::CoseKeyTop,
        ),
{
    validate_cbor_bytes(bytes, MAX_COSE_KEY_BYTES, CborItemRole::CoseKeyTop)
}

/// Detached payloads are limited to [`MAX_DETACHED_PAYLOAD_BYTES`].
pub fn validate_detached_payload(payload: &[u8]) -> (r: Result<(), CoseError>)
    ensures
        r is Ok <==> payload@.len() <= MAX_DETACHED_PAYLOAD_BYTES,
        r is Err ==> r == Err::<(), CoseError>(CoseError::ResourceLimitExceeded),
{
    validate_detached_payload_with_limit(payload, MAX_DETACHED_PAYLOAD_BYTES)
}

/// Detached payloads are limited to `max_len` bytes.
pub fn validate_detached_payload_with_limit(payload: &[u8], max_len: usize) -> (r: Result<
    (),
    CoseError,
>)
    ensures
        r is Ok <==> payload@.len() <= max_len,
        r is Err ==> r == Err::<(), CoseError>(CoseError::ResourceLimitExceeded),
{
    if payload.len() > max_len {
        return Err(CoseError::ResourceLimitExceeded);
    }
    Ok(())
}

} // verus!
