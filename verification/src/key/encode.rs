//! Canonical encoding of COSE keys.

use coset::iana::EnumI64;
use coset::AsCborValue;
use vstd::prelude::*;
use vstd::utf8::encode_utf8;

use crate::algorithm::label::{
    algorithm_registered, iana_algorithm_registered, iana_key_operation_registered, iana_key_type_registered, key_type_registered,
    RegisteredLabel, RegisteredLabelWithPrivate,
};
use crate::cbor::{clone_value, encode_cbor_value, from_ciborium, spec_encode_cbor_value, spec_same_value, CborValue};
use crate::encrypt::codec::{spec_alg_value_is, spec_is_bytes, spec_label_value_is, spec_labels_distinct};
use crate::error::CoseError;
use crate::limits::profile::{validate_cose_key_bytes, MAX_COSE_KEY_BYTES};
use crate::limits::validate::{spec_validate_cbor_bytes, CborItemRole};

use crate::algorithm::primitive::Algorithm;
use crate::algorithm::signature::CoseSignatureAlgorithm;

use super::convert::{spec_public_construction_holds, KeyConstruction};
use super::owned::{CoseKey, CoseKeyView};
use super::profile::{KEY_PARAM_ALG, KEY_PARAM_BASE_IV, KEY_PARAM_KEY_OPS, KEY_PARAM_KID, KEY_PARAM_KTY};

verus! {

/// Whether two key operations are one element of coset's set: the same
/// registered value, or the same text.
pub open spec fn spec_same_key_operation(a: RegisteredLabel, b: RegisteredLabel) -> bool {
    match (a, b) {
        (RegisteredLabel::Assigned(x), RegisteredLabel::Assigned(y)) => x == y,
        (RegisteredLabel::Text(s), RegisteredLabel::Text(t)) => s@ == t@,
        _ => false,
    }
}

/// `a` comes before `b`, both of one length, in bytewise order.
pub open spec fn spec_bytes_precede(a: Seq<u8>, b: Seq<u8>) -> bool {
    exists|i: int| 0 <= i < a.len() && a.take(i) == b.take(i) && a[i] < b[i]
}

/// `a` strictly precedes `b` in coset's order of key operations
/// (`Ord for RegisteredLabel`): registered values first, by value (every
/// registered key operation is positive, where coset's integer order is the
/// numeric one), then text by UTF-8 length and then bytewise.
pub open spec fn spec_key_operation_precedes(a: RegisteredLabel, b: RegisteredLabel) -> bool {
    match (a, b) {
        (RegisteredLabel::Assigned(x), RegisteredLabel::Assigned(y)) => x < y,
        (RegisteredLabel::Assigned(_), RegisteredLabel::Text(_)) => true,
        (RegisteredLabel::Text(_), RegisteredLabel::Assigned(_)) => false,
        (RegisteredLabel::Text(s), RegisteredLabel::Text(t)) => {
            let (bs, bt) = (encode_utf8(s@), encode_utf8(t@));
            bs.len() < bt.len() || (bs.len() == bt.len() && spec_bytes_precede(bs, bt))
        },
    }
}

/// Every assigned key operation is registered in coset's IANA table.
pub open spec fn spec_key_operations_registered(operations: Seq<RegisteredLabel>) -> bool {
    forall|k: int|
        0 <= k < operations.len() ==> (#[trigger] operations[k] matches RegisteredLabel::Assigned(v)
            ==> iana_key_operation_registered(v))
}

/// `value` is the CBOR array that coset writes for the key operations
/// `operations` from its `BTreeSet`: every distinct operation once, in
/// coset's order.
pub open spec fn spec_key_operations_value_is(value: CborValue, operations: Seq<RegisteredLabel>) -> bool {
    &&& value matches CborValue::Array(items)
    &&& exists|ordered: Seq<RegisteredLabel>|
        #![trigger ordered.len()]
        {
            &&& ordered.len() == items@.len()
            &&& forall|i: int| 0 <= i < ordered.len() ==> spec_registered_value_is(#[trigger] items@[i], ordered[i])
            &&& forall|i: int, j: int|
                0 <= i < j < ordered.len() ==> spec_key_operation_precedes(#[trigger] ordered[i], #[trigger] ordered[j])
            &&& forall|i: int|
                0 <= i < ordered.len() ==> exists|k: int|
                    0 <= k < operations.len() && spec_same_key_operation(#[trigger] ordered[i], #[trigger] operations[k])
            &&& forall|k: int|
                0 <= k < operations.len() ==> exists|i: int|
                    0 <= i < ordered.len() && spec_same_key_operation(#[trigger] operations[k], #[trigger] ordered[i])
        }
}

/// Serialize key operations as coset's `CoseKey` does: collected into its
/// `BTreeSet<KeyOperation>`, which fails on an unregistered value, and
/// serialized in that set's order.
#[verifier::external_body]
fn coset_key_operations_value(operations: &Vec<RegisteredLabel>) -> (r: Option<CborValue>)
    ensures
        r is Some <==> spec_key_operations_registered(operations@),
        r matches Some(value) ==> spec_key_operations_value_is(value, operations@),
{
    let set = operations.iter().map(|operation| Some(match operation {
        RegisteredLabel::Assigned(value) => coset::RegisteredLabel::Assigned(coset::iana::KeyOperation::from_i64(*value)?),
        RegisteredLabel::Text(text) => coset::RegisteredLabel::Text(text.clone()),
    })).collect::<Option<std::collections::BTreeSet<coset::KeyOperation>>>()?;
    let items = set.into_iter().map(|operation| operation.to_cbor_value().ok()).collect::<Option<_>>()?;
    from_ciborium(ciborium::value::Value::Array(items))
}

/// `value` is the CBOR encoding of the key type `kty`.
pub open spec fn spec_registered_value_is(value: CborValue, kty: RegisteredLabel) -> bool {
    match kty {
        RegisteredLabel::Assigned(i) => value == CborValue::Integer(i as i128),
        RegisteredLabel::Text(t) => value matches CborValue::Text(u) && u@ == t@,
    }
}

/// The number of map entries of a key's common parameters: `kty` always,
/// and `kid`, `alg`, `key_ops` and `Base IV` where present.
pub open spec fn spec_key_fixed_count(key: CoseKeyView) -> int {
    1 + (if key.key_id.len() > 0 { 1int } else { 0int }) + (if key.alg is Some { 1int } else { 0int })
        + (if key.key_ops.len() > 0 { 1int } else { 0int }) + (if key.base_iv.len() > 0 { 1int } else { 0int })
}

/// `value` is the CBOR map of `key`: `kty` (1), then `kid` (2), `alg` (3),
/// `key_ops` (4) and `Base IV` (5) where present, then every other
/// parameter in order.
pub open spec fn spec_is_key_map(value: CborValue, key: CoseKeyView) -> bool {
    let k = 1 + (if key.key_id.len() > 0 { 1int } else { 0int });
    let a = k + (if key.alg is Some { 1int } else { 0int });
    let o = a + (if key.key_ops.len() > 0 { 1int } else { 0int });
    let fixed = spec_key_fixed_count(key);
    &&& value matches CborValue::Mapping(entries)
    &&& entries@.len() == fixed + key.params.len()
    &&& entries@[0].0 == CborValue::Integer(KEY_PARAM_KTY as i128)
    &&& spec_registered_value_is(entries@[0].1, key.kty)
    &&& (key.key_id.len() > 0 ==> entries@[1].0 == CborValue::Integer(KEY_PARAM_KID as i128)
        && spec_is_bytes(entries@[1].1, key.key_id))
    &&& (key.alg matches Some(alg) ==> entries@[k].0 == CborValue::Integer(KEY_PARAM_ALG as i128)
        && spec_alg_value_is(entries@[k].1, alg))
    &&& (key.key_ops.len() > 0 ==> entries@[a].0 == CborValue::Integer(KEY_PARAM_KEY_OPS as i128)
        && spec_key_operations_value_is(entries@[a].1, key.key_ops))
    &&& (key.base_iv.len() > 0 ==> entries@[o].0 == CborValue::Integer(KEY_PARAM_BASE_IV as i128)
        && spec_is_bytes(entries@[o].1, key.base_iv))
    &&& forall|j: int|
        0 <= j < key.params.len() ==> spec_label_value_is(#[trigger] entries@[fixed + j].0, key.params[j].0)
            && spec_same_value(key.params[j].1, entries@[fixed + j].1)
}

/// Why a key has no CBOR map: a key type, algorithm or key operation that
/// coset does not register, or a parameter label that occurs twice.
pub open spec fn spec_key_map_error(key: CoseKeyView) -> Option<CoseError> {
    if (key.kty matches RegisteredLabel::Assigned(i) && !iana_key_type_registered(i))
        || (key.alg matches Some(RegisteredLabelWithPrivate::Assigned(i)) && !iana_algorithm_registered(i))
        || (key.key_ops.len() > 0 && !spec_key_operations_registered(key.key_ops))
        || !spec_labels_distinct(key.params) {
        Some(CoseError::Cbor)
    } else {
        None
    }
}

/// Build the CBOR map of a key.
pub fn cose_key_value(key: &CoseKey) -> (r: Result<CborValue, CoseError>)
    ensures
        match r {
            Ok(value) => spec_key_map_error(key@) is None && spec_is_key_map(value, key@),
            Err(error) => error == CoseError::Cbor && spec_key_map_error(key@) is Some,
        },
{
    proof {
        key.lemma_view();
    }
    if !crate::encrypt::codec::labels_distinct(&key.params) {
        return Err(CoseError::Cbor);
    }
    let kty = match &key.kty {
        RegisteredLabel::Assigned(i) => {
            if !key_type_registered(*i) {
                return Err(CoseError::Cbor);
            }
            CborValue::Integer(*i as i128)
        },
        RegisteredLabel::Text(t) => CborValue::Text(t.clone()),
    };
    let mut entries: Vec<(CborValue, CborValue)> = Vec::new();
    entries.push((CborValue::Integer(KEY_PARAM_KTY as i128), kty));
    if key.key_id.len() > 0 {
        entries.push((CborValue::Integer(KEY_PARAM_KID as i128), CborValue::Bytes(vstd::slice::slice_to_vec(key.key_id.as_slice()))));
    }
    match &key.alg {
        Some(alg) => {
            let value = match alg {
                RegisteredLabelWithPrivate::Assigned(i) => {
                    if !algorithm_registered(*i) {
                        return Err(CoseError::Cbor);
                    }
                    CborValue::Integer(*i as i128)
                },
                RegisteredLabelWithPrivate::PrivateUse(i) => CborValue::Integer(*i as i128),
                RegisteredLabelWithPrivate::Text(t) => CborValue::Text(t.clone()),
            };
            entries.push((CborValue::Integer(KEY_PARAM_ALG as i128), value));
        },
        None => {},
    }
    if key.key_ops.len() > 0 {
        match coset_key_operations_value(&key.key_ops) {
            Some(operations) => entries.push((CborValue::Integer(KEY_PARAM_KEY_OPS as i128), operations)),
            None => return Err(CoseError::Cbor),
        }
    }
    if key.base_iv.len() > 0 {
        entries.push((CborValue::Integer(KEY_PARAM_BASE_IV as i128), CborValue::Bytes(vstd::slice::slice_to_vec(key.base_iv.as_slice()))));
    }
    let fixed = entries.len();
    let ghost prefix = entries@;
    assert(fixed == spec_key_fixed_count(key@));
    let mut j: usize = 0;
    while j < key.params.len()
        invariant
            j <= key.params@.len(),
            fixed == spec_key_fixed_count(key@),
            key@.params == key.params@,
            prefix.len() == fixed,
            entries@.len() == fixed + j,
            forall|i: int| 0 <= i < fixed ==> #[trigger] entries@[i] == prefix[i],
            forall|i: int|
                0 <= i < j ==> spec_label_value_is(#[trigger] entries@[fixed + i].0, key.params@[i].0)
                    && spec_same_value(key.params@[i].1, entries@[fixed + i].1),
        decreases key.params@.len() - j,
    {
        let label = crate::encrypt::codec::label_value(&key.params[j].0);
        let value = clone_value(&key.params[j].1);
        let ghost old_entries = entries@;
        entries.push((label, value));
        assert(entries@[fixed + j as int] == (label, value));
        assert forall|i: int| 0 <= i < j implies #[trigger] entries@[fixed + i] == old_entries[fixed + i] by {}
        j = j + 1;
    }
    proof {
        let k = 1 + (if key@.key_id.len() > 0 { 1int } else { 0int });
        let a = k + (if key@.alg is Some { 1int } else { 0int });
        let o = a + (if key@.key_ops.len() > 0 { 1int } else { 0int });
        assert(entries@[0] == prefix[0]);
        if key@.key_id.len() > 0 {
            assert(entries@[1] == prefix[1]);
        }
        if key@.alg is Some {
            assert(entries@[k] == prefix[k]);
        }
        if key@.key_ops.len() > 0 {
            assert(entries@[a] == prefix[a]);
        }
        if key@.base_iv.len() > 0 {
            assert(entries@[o] == prefix[o]);
        }
        assert forall|i: int| 0 <= i < key@.params.len() implies spec_label_value_is(
            #[trigger] entries@[spec_key_fixed_count(key@) + i].0,
            key@.params[i].0,
        ) && spec_same_value(key@.params[i].1, entries@[spec_key_fixed_count(key@) + i].1) by {
            assert(entries@[fixed + i] == entries@[spec_key_fixed_count(key@) + i]);
        }
    }
    let value = CborValue::Mapping(entries);
    assert(spec_key_map_error(key@) is None);
    assert(spec_is_key_map(value, key@));
    Ok(value)
}

/// `bytes` are the canonical encoding of `key`: the encoding of its map,
/// which passes the COSE_Key boundary checks.
pub open spec fn spec_key_encoding_is(key: CoseKeyView, bytes: Seq<u8>) -> bool {
    &&& exists|value: CborValue|
        #![trigger spec_is_key_map(value, key)]
        spec_is_key_map(value, key) && spec_encode_cbor_value(value) == Ok::<Seq<u8>, CoseError>(bytes)
    &&& spec_validate_cbor_bytes(bytes, MAX_COSE_KEY_BYTES as int, CborItemRole::CoseKeyTop) is Ok
}

/// Encoding `key` fails with `error`.
pub open spec fn spec_key_encoding_fails(key: CoseKeyView, error: CoseError) -> bool {
    ||| spec_key_map_error(key) == Some(error)
    ||| exists|value: CborValue|
        #![trigger spec_is_key_map(value, key)]
        spec_is_key_map(value, key) && spec_encode_cbor_value(value) == Err::<Seq<u8>, CoseError>(error)
    ||| exists|bytes: Seq<u8>, value: CborValue|
        #![trigger spec_is_key_map(value, key), spec_validate_cbor_bytes(bytes, MAX_COSE_KEY_BYTES as int, CborItemRole::CoseKeyTop)]
        spec_is_key_map(value, key) && spec_encode_cbor_value(value) == Ok::<Seq<u8>, CoseError>(bytes)
            && spec_validate_cbor_bytes(bytes, MAX_COSE_KEY_BYTES as int, CborItemRole::CoseKeyTop)
            == Err::<(), CoseError>(error)
}

/// Encode a key and check the result against the COSE_Key boundary rules.
pub fn encode_cose_key_value(key: &CoseKey) -> (r: Result<Vec<u8>, CoseError>)
    ensures
        match r {
            Ok(bytes) => spec_key_encoding_is(key@, bytes@),
            Err(error) => spec_key_encoding_fails(key@, error),
        },
{
    let value = match cose_key_value(key) {
        Ok(value) => value,
        Err(error) => return Err(error),
    };
    let encoded = match encode_cbor_value(&value) {
        Ok(encoded) => encoded,
        Err(error) => {
            assert(spec_is_key_map(value, key@));
            return Err(error);
        },
    };
    assert(spec_is_key_map(value, key@));
    match validate_cose_key_bytes(encoded.as_slice()) {
        Ok(()) => Ok(encoded),
        Err(error) => Err(error),
    }
}

/// The registration a P-256 key is built for is the one it is written
/// with: a key built for ES256 carries `alg` -7 and one built for ESP256
/// carries -9, and the key's CBOR map holds that value right after `kty`.
pub proof fn lemma_p256_registration_is_written(
    construction: KeyConstruction,
    signature_algorithm: CoseSignatureAlgorithm,
    public_key: Seq<u8>,
    value: CborValue,
)
    requires
        signature_algorithm == CoseSignatureAlgorithm::Es256 || signature_algorithm
            == CoseSignatureAlgorithm::Esp256,
        spec_public_construction_holds(construction, Algorithm::P256, Some(signature_algorithm), public_key),
        spec_is_key_map(value, construction.key@),
    ensures
        construction.key@.alg == Some(RegisteredLabelWithPrivate::Assigned(
            if signature_algorithm == CoseSignatureAlgorithm::Es256 { -7i64 } else { -9i64 },
        )),
        value->Mapping_0@[1].0 == CborValue::Integer(KEY_PARAM_ALG as i128),
        value->Mapping_0@[1].1 == CborValue::Integer(
            if signature_algorithm == CoseSignatureAlgorithm::Es256 { -7i128 } else { -9i128 },
        ),
{
}

} // verus!
