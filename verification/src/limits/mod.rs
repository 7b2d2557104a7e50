//! Resource limits and deterministic CBOR boundary checks shared by the COSE
//! byte-boundary APIs.

mod key_set;
pub mod profile;
pub mod utf8;
pub mod validate;

pub use profile::{
    validate_cose_encrypt_bytes, validate_cose_key_bytes, validate_cose_sign1_bytes_with_limit,
    validate_detached_payload, validate_detached_payload_with_limit, MAX_COSE_ENCRYPT_BYTES,
    MAX_COSE_KEY_BYTES, MAX_COSE_SIGN1_BYTES, MAX_DETACHED_PAYLOAD_BYTES,
};
pub use validate::{validate_cbor_bytes, validate_protected_header_bytes, CborItemRole};
