//! The KDF context and the `Enc_structure` that bind derived keys and
//! content encryption to the protected headers.

use vstd::prelude::*;

use crate::cbor::{encode_cbor_value, spec_encode_cbor_value, CborValue};
use crate::error::CoseError;

use super::codec::spec_is_bytes;

verus! {

/// `value` is the KDF context `[AlgorithmID, [keyDataLength, protected],
/// SuppPrivInfo?]`.
///
/// PartyUInfo and PartyVInfo are deliberately absent: only the algorithm,
/// the output length in bits, the recipient protected header and the
/// optional private context are bound into the derived key.
pub open spec fn spec_is_kdf_context(
    value: CborValue,
    algorithm_id: i64,
    output_bits: int,
    recipient_protected: Seq<u8>,
    supp_priv_info: Option<Seq<u8>>,
) -> bool {
    &&& value matches CborValue::Array(items)
    &&& items@.len() == (if supp_priv_info is Some {
        3int
    } else {
        2int
    })
    &&& items@[0] == CborValue::Integer(algorithm_id as i128)
    &&& items@[1] matches CborValue::Array(supp_pub_info)
    &&& supp_pub_info@.len() == 2
    &&& supp_pub_info@[0] == CborValue::Integer(output_bits as i128)
    &&& spec_is_bytes(supp_pub_info@[1], recipient_protected)
    &&& match supp_priv_info {
        Some(info) => spec_is_bytes(items@[2], info),
        None => true,
    }
}

/// The view of an optional byte slice.
pub open spec fn spec_opt_slice(value: Option<&[u8]>) -> Option<Seq<u8>> {
    match value {
        Some(bytes) => Some(bytes@),
        None => None,
    }
}

/// Build the KDF context item for a derived key of `output_length` bytes.
///
/// Returns [`CoseError::ResourceLimitExceeded`] exactly when the length in
/// bits does not fit in `usize` and `u64`.
pub fn kdf_context_value(
    algorithm_id: i64,
    output_length: usize,
    recipient_protected: &[u8],
    supp_priv_info: Option<&[u8]>,
) -> (r: Result<CborValue, CoseError>)
    ensures
        match r {
            Ok(value) => output_length * 8 <= usize::MAX && output_length * 8 <= u64::MAX
                && spec_is_kdf_context(
                value,
                algorithm_id,
                output_length * 8,
                recipient_protected@,
                spec_opt_slice(supp_priv_info),
            ),
            Err(error) => error == CoseError::ResourceLimitExceeded && (output_length * 8
                > usize::MAX || output_length * 8 > u64::MAX),
        },
{
    let output_bits = match output_length.checked_mul(8) {
        Some(bits) => bits,
        None => return Err(CoseError::ResourceLimitExceeded),
    };
    if output_bits as u128 > u64::MAX as u128 {
        return Err(CoseError::ResourceLimitExceeded);
    }
    let mut supp_pub_info: Vec<CborValue> = Vec::new();
    supp_pub_info.push(CborValue::Integer(output_bits as i128));
    supp_pub_info.push(CborValue::Bytes(vstd::slice::slice_to_vec(recipient_protected)));
    let mut items: Vec<CborValue> = Vec::new();
    items.push(CborValue::Integer(algorithm_id as i128));
    items.push(CborValue::Array(supp_pub_info));
    match supp_priv_info {
        Some(info) => items.push(CborValue::Bytes(vstd::slice::slice_to_vec(info))),
        None => {},
    }
    Ok(CborValue::Array(items))
}

/// Building the encoded KDF context for a key of `output_length` bytes
/// fails with `error`: its length in bits does not fit, or its encoding
/// fails.
pub open spec fn spec_kdf_context_fails(
    algorithm_id: i64,
    output_length: usize,
    recipient_protected: Seq<u8>,
    supp_priv_info: Option<Seq<u8>>,
    error: CoseError,
) -> bool {
    ||| (error == CoseError::ResourceLimitExceeded && (output_length * 8 > usize::MAX || output_length * 8
        > u64::MAX))
    ||| exists|value: CborValue|
        #![trigger spec_encode_cbor_value(value)]
        spec_is_kdf_context(value, algorithm_id, output_length * 8, recipient_protected, supp_priv_info)
            && spec_encode_cbor_value(value) == Err::<Seq<u8>, CoseError>(error)
}

/// The encoded KDF context for a derived key of `output_length` bytes.
///
/// The key itself is derived by KMAC256 over these bytes with the ML-KEM
/// shared secret as key, outside this library.
pub fn kdf_context(
    algorithm_id: i64,
    output_length: usize,
    recipient_protected: &[u8],
    supp_priv_info: Option<&[u8]>,
) -> (r: Result<Vec<u8>, CoseError>)
    ensures
        match r {
            Ok(bytes) => exists|value: CborValue|
                #![trigger spec_encode_cbor_value(value)]
                spec_is_kdf_context(
                    value,
                    algorithm_id,
                    output_length * 8,
                    recipient_protected@,
                    spec_opt_slice(supp_priv_info),
                ) && spec_encode_cbor_value(value) == Ok::<Seq<u8>, CoseError>(bytes@),
            Err(error) => spec_kdf_context_fails(
                algorithm_id,
                output_length,
                recipient_protected@,
                spec_opt_slice(supp_priv_info),
                error,
            ),
        },
{
    let value = match kdf_context_value(algorithm_id, output_length, recipient_protected, supp_priv_info) {
        Ok(value) => value,
        Err(error) => return Err(error),
    };
    let r = encode_cbor_value(&value);
    match &r {
        Ok(bytes) => {
            assert(spec_encode_cbor_value(value) == Ok::<Seq<u8>, CoseError>(bytes@));
        },
        Err(error) => {
            assert(spec_encode_cbor_value(value) == Err::<Seq<u8>, CoseError>(*error));
        },
    }
    r
}

/// `value` is the `Enc_structure` `["Encrypt", protected, external_aad]`.
pub open spec fn spec_is_enc_structure(value: CborValue, body_protected: Seq<u8>, external_aad: Seq<u8>) -> bool {
    &&& value matches CborValue::Array(items)
    &&& items@.len() == 3
    &&& items@[0] matches CborValue::Text(context) && context@ == "Encrypt"@
    &&& spec_is_bytes(items@[1], body_protected)
    &&& spec_is_bytes(items@[2], external_aad)
}

/// The encoded `Enc_structure`: the additional authenticated data of the
/// content encryption.
pub fn enc_structure(body_protected: &[u8], external_aad: &[u8]) -> (r: Result<Vec<u8>, CoseError>)
    ensures
        exists|value: CborValue|
            #![trigger spec_encode_cbor_value(value)]
            spec_is_enc_structure(value, body_protected@, external_aad@) && match r {
                Ok(bytes) => spec_encode_cbor_value(value) == Ok::<Seq<u8>, CoseError>(bytes@),
                Err(error) => spec_encode_cbor_value(value) == Err::<Seq<u8>, CoseError>(error),
            },
{
    let mut items: Vec<CborValue> = Vec::new();
    items.push(CborValue::Text("Encrypt".to_owned()));
    items.push(CborValue::Bytes(vstd::slice::slice_to_vec(body_protected)));
    items.push(CborValue::Bytes(vstd::slice::slice_to_vec(external_aad)));
    let value = CborValue::Array(items);
    let r = encode_cbor_value(&value);
    match &r {
        Ok(bytes) => {
            assert(spec_encode_cbor_value(value) == Ok::<Seq<u8>, CoseError>(bytes@));
        },
        Err(error) => {
            assert(spec_encode_cbor_value(value) == Err::<Seq<u8>, CoseError>(*error));
        },
    }
    r
}

} // verus!
