//! Parsing of canonical, untagged COSE_Key bytes.

use vstd::prelude::*;

use crate::algorithm::label::{
    iana_key_operation_registered, iana_key_type_registered, parse_algorithm_label,
    parse_key_operation_label, parse_key_type_label, spec_algorithm_label, Label, RegisteredLabel,
    RegisteredLabelWithPrivate,
};
use crate::cbor::{ciborium_decode, ciborium_decoding, CborValue};
use crate::error::CoseError;
use crate::limits::profile::{validate_cose_key_bytes, MAX_COSE_KEY_BYTES};
use crate::limits::validate::{spec_validate_cbor_bytes, CborItemRole};

use super::convert::MaterialCheck;
use super::owned::{CoseKey, CoseKeyView};
use super::profile::{
    KeyProfile, KEY_PARAM_ALG, KEY_PARAM_BASE_IV, KEY_PARAM_KEY_OPS, KEY_PARAM_KID, KEY_PARAM_KTY,
    KTY_RESERVED,
};
use super::validate::{spec_profile_checks_hold, spec_validate_cose_key_profile, validate_cose_key_profile};

verus! {

/// A key with no parameter; its key type is the reserved value.
pub open spec fn spec_empty_key() -> CoseKeyView {
    CoseKeyView {
        kty: RegisteredLabel::Assigned(KTY_RESERVED),
        key_id: Seq::empty(),
        alg: None,
        key_ops: Seq::empty(),
        base_iv: Seq::empty(),
        params: Seq::empty(),
    }
}

/// A map label: an integer that fits `i64`, or text.
pub open spec fn spec_parse_label(value: CborValue) -> Result<Label, CoseError> {
    match value {
        CborValue::Integer(integer) => if i64::MIN <= integer <= i64::MAX {
            Ok(Label::Int(integer as i64))
        } else {
            Err(CoseError::Cbor)
        },
        CborValue::Text(text) => Ok(Label::Text(text)),
        _ => Err(CoseError::Cbor),
    }
}

/// A key type: a registered integer, or text.
pub open spec fn spec_parse_key_type(value: CborValue) -> Result<RegisteredLabel, CoseError> {
    match value {
        CborValue::Integer(integer) => if i64::MIN <= integer <= i64::MAX && iana_key_type_registered(
            integer as i64,
        ) {
            Ok(RegisteredLabel::Assigned(integer as i64))
        } else {
            Err(CoseError::Cbor)
        },
        CborValue::Text(text) => Ok(RegisteredLabel::Text(text)),
        _ => Err(CoseError::Cbor),
    }
}

/// A key operation: a registered integer, or text.
pub open spec fn spec_parse_key_operation(value: CborValue) -> Result<RegisteredLabel, CoseError> {
    match value {
        CborValue::Integer(integer) => if i64::MIN <= integer <= i64::MAX
            && iana_key_operation_registered(integer as i64) {
            Ok(RegisteredLabel::Assigned(integer as i64))
        } else {
            Err(CoseError::Cbor)
        },
        CborValue::Text(text) => Ok(RegisteredLabel::Text(text)),
        _ => Err(CoseError::Cbor),
    }
}

/// A key algorithm: a registered or private-use integer, or text.
pub open spec fn spec_parse_key_algorithm(value: CborValue) -> Result<RegisteredLabelWithPrivate, CoseError> {
    match value {
        CborValue::Integer(integer) => match spec_algorithm_label(integer) {
            Some(label) => Ok(label),
            None => Err(CoseError::Cbor),
        },
        CborValue::Text(text) => Ok(RegisteredLabelWithPrivate::Text(text)),
        _ => Err(CoseError::Cbor),
    }
}

/// A non-empty byte string.
pub open spec fn spec_nonempty_bytes(value: CborValue) -> Result<Seq<u8>, CoseError> {
    match value {
        CborValue::Bytes(bytes) => if bytes@.len() > 0 {
            Ok(bytes@)
        } else {
            Err(CoseError::Cbor)
        },
        _ => Err(CoseError::Cbor),
    }
}

/// Whether two registered labels are the same value.
pub open spec fn spec_same_label(a: RegisteredLabel, b: RegisteredLabel) -> bool {
    match (a, b) {
        (RegisteredLabel::Assigned(x), RegisteredLabel::Assigned(y)) => x == y,
        (RegisteredLabel::Text(s), RegisteredLabel::Text(t)) => s@ == t@,
        _ => false,
    }
}

/// Whether `operations` holds `operation`.
pub open spec fn spec_holds_label(operations: Seq<RegisteredLabel>, operation: RegisteredLabel) -> bool {
    exists|i: int| 0 <= i < operations.len() && spec_same_label(#[trigger] operations[i], operation)
}

/// Add the first `n` operations of `items` to `existing`; each must parse
/// and occur once.
pub open spec fn spec_add_key_operations(
    existing: Seq<RegisteredLabel>,
    items: Seq<CborValue>,
    n: int,
) -> Result<Seq<RegisteredLabel>, CoseError>
    decreases n,
{
    if n <= 0 {
        Ok(existing)
    } else {
        match spec_add_key_operations(existing, items, n - 1) {
            Err(error) => Err(error),
            Ok(operations) => match spec_parse_key_operation(items[n - 1]) {
                Err(error) => Err(error),
                Ok(operation) => if spec_holds_label(operations, operation) {
                    Err(CoseError::Cbor)
                } else {
                    Ok(operations.push(operation))
                },
            },
        }
    }
}

/// The key operations of a `key_ops` value: a non-empty array of distinct
/// operations.
pub open spec fn spec_parse_key_operations(value: CborValue, existing: Seq<RegisteredLabel>) -> Result<
    Seq<RegisteredLabel>,
    CoseError,
> {
    match value {
        CborValue::Array(items) => if items@.len() > 0 {
            spec_add_key_operations(existing, items@, items@.len() as int)
        } else {
            Err(CoseError::Cbor)
        },
        _ => Err(CoseError::Cbor),
    }
}

/// Read one map entry into a key: the common parameters `kty`, `kid`,
/// `alg`, `key_ops` and `Base IV`, or any other parameter kept in order.
pub open spec fn spec_key_step(key: CoseKeyView, entry: (CborValue, CborValue)) -> Result<
    CoseKeyView,
    CoseError,
> {
    match spec_parse_label(entry.0) {
        Err(error) => Err(error),
        Ok(label) => if label == Label::Int(KEY_PARAM_KTY) {
            match spec_parse_key_type(entry.1) {
                Ok(kty) => Ok(CoseKeyView { kty, ..key }),
                Err(error) => Err(error),
            }
        } else if label == Label::Int(KEY_PARAM_KID) {
            match spec_nonempty_bytes(entry.1) {
                Ok(key_id) => Ok(CoseKeyView { key_id, ..key }),
                Err(error) => Err(error),
            }
        } else if label == Label::Int(KEY_PARAM_ALG) {
            match spec_parse_key_algorithm(entry.1) {
                Ok(alg) => Ok(CoseKeyView { alg: Some(alg), ..key }),
                Err(error) => Err(error),
            }
        } else if label == Label::Int(KEY_PARAM_KEY_OPS) {
            match spec_parse_key_operations(entry.1, key.key_ops) {
                Ok(key_ops) => Ok(CoseKeyView { key_ops, ..key }),
                Err(error) => Err(error),
            }
        } else if label == Label::Int(KEY_PARAM_BASE_IV) {
            match spec_nonempty_bytes(entry.1) {
                Ok(base_iv) => Ok(CoseKeyView { base_iv, ..key }),
                Err(error) => Err(error),
            }
        } else {
            Ok(CoseKeyView { params: key.params.push((label, entry.1)), ..key })
        },
    }
}

/// Read the first `n` map entries into an empty key.
pub open spec fn spec_key_scan(entries: Seq<(CborValue, CborValue)>, n: int) -> Result<
    CoseKeyView,
    CoseError,
>
    decreases n,
{
    if n <= 0 {
        Ok(spec_empty_key())
    } else {
        match spec_key_scan(entries, n - 1) {
            Err(error) => Err(error),
            Ok(key) => spec_key_step(key, entries[n - 1]),
        }
    }
}

/// Decode COSE_Key bytes: they must pass the COSE_Key boundary checks and
/// hold one map whose entries all read, and the key type must be set.
pub open spec fn spec_decode_owned_cose_key(bytes: Seq<u8>) -> Result<CoseKeyView, CoseError> {
    match spec_validate_cbor_bytes(bytes, MAX_COSE_KEY_BYTES as int, CborItemRole::CoseKeyTop) {
        Err(error) => Err(error),
        Ok(_) => match ciborium_decoding(bytes) {
            Some(CborValue::Mapping(entries)) => match spec_key_scan(entries@, entries@.len() as int) {
                Err(error) => Err(error),
                Ok(key) => if key.kty == RegisteredLabel::Assigned(KTY_RESERVED) {
                    Err(CoseError::InvalidFormat)
                } else {
                    Ok(key)
                },
            },
            _ => Err(CoseError::Cbor),
        },
    }
}

fn registered_label_eq(a: &RegisteredLabel, b: &RegisteredLabel) -> (r: bool)
    ensures
        r == spec_same_label(*a, *b),
{
    match (a, b) {
        (RegisteredLabel::Assigned(x), RegisteredLabel::Assigned(y)) => *x == *y,
        (RegisteredLabel::Text(s), RegisteredLabel::Text(t)) => *s == *t,
        _ => false,
    }
}

fn holds_label(operations: &Vec<RegisteredLabel>, operation: &RegisteredLabel) -> (r: bool)
    ensures
        r == spec_holds_label(operations@, *operation),
{
    let mut i: usize = 0;
    while i < operations.len()
        invariant
            i <= operations@.len(),
            forall|j: int| 0 <= j < i ==> !spec_same_label(#[trigger] operations@[j], *operation),
        decreases operations@.len() - i,
    {
        if registered_label_eq(&operations[i], operation) {
            return true;
        }
        i = i + 1;
    }
    false
}

proof fn lemma_add_operations_error_persists(
    existing: Seq<RegisteredLabel>,
    items: Seq<CborValue>,
    i: int,
    error: CoseError,
)
    requires
        0 <= i <= items.len(),
        spec_add_key_operations(existing, items, i) == Err::<Seq<RegisteredLabel>, CoseError>(error),
    ensures
        spec_add_key_operations(existing, items, items.len() as int) == Err::<
            Seq<RegisteredLabel>,
            CoseError,
        >(error),
    decreases items.len() - i,
{
    if i < items.len() {
        lemma_add_operations_error_persists(existing, items, i + 1, error);
    }
}

fn parse_key_operation(value: &CborValue) -> (r: Result<RegisteredLabel, CoseError>)
    ensures
        r == spec_parse_key_operation(*value),
{
    match value {
        CborValue::Integer(integer) => match parse_key_operation_label(*integer) {
            Some(operation) => Ok(RegisteredLabel::Assigned(operation)),
            None => Err(CoseError::Cbor),
        },
        CborValue::Text(text) => Ok(RegisteredLabel::Text(text.clone())),
        _ => Err(CoseError::Cbor),
    }
}

fn parse_key_operations(value: &CborValue, operations: &mut Vec<RegisteredLabel>) -> (r: Result<
    (),
    CoseError,
>)
    ensures
        match r {
            Ok(()) => spec_parse_key_operations(*value, old(operations)@) == Ok::<
                Seq<RegisteredLabel>,
                CoseError,
            >(final(operations)@),
            Err(error) => spec_parse_key_operations(*value, old(operations)@) == Err::<
                Seq<RegisteredLabel>,
                CoseError,
            >(error),
        },
{
    let items = match value {
        CborValue::Array(items) => if items.len() > 0 {
            items
        } else {
            return Err(CoseError::Cbor);
        },
        _ => return Err(CoseError::Cbor),
    };
    let ghost existing = operations@;
    let mut i: usize = 0;
    while i < items.len()
        invariant
            i <= items@.len(),
            items@.len() > 0,
            existing == old(operations)@,
            *value == CborValue::Array(*items),
            spec_add_key_operations(existing, items@, i as int) == Ok::<
                Seq<RegisteredLabel>,
                CoseError,
            >(operations@),
        decreases items@.len() - i,
    {
        let operation = match parse_key_operation(&items[i]) {
            Ok(operation) => operation,
            Err(error) => {
                proof {
                    lemma_add_operations_error_persists(existing, items@, i as int + 1, error);
                }
                return Err(error);
            },
        };
        if holds_label(operations, &operation) {
            proof {
                lemma_add_operations_error_persists(existing, items@, i as int + 1, CoseError::Cbor);
            }
            return Err(CoseError::Cbor);
        }
        operations.push(operation);
        i = i + 1;
    }
    Ok(())
}

fn nonempty_bytes(value: CborValue) -> (r: Result<Vec<u8>, CoseError>)
    ensures
        match r {
            Ok(bytes) => spec_nonempty_bytes(value) == Ok::<Seq<u8>, CoseError>(bytes@),
            Err(error) => spec_nonempty_bytes(value) == Err::<Seq<u8>, CoseError>(error),
        },
{
    match value {
        CborValue::Bytes(bytes) => if bytes.len() > 0 {
            Ok(bytes)
        } else {
            Err(CoseError::Cbor)
        },
        _ => Err(CoseError::Cbor),
    }
}

proof fn lemma_key_scan_error_persists(entries: Seq<(CborValue, CborValue)>, i: int, error: CoseError)
    requires
        0 <= i <= entries.len(),
        spec_key_scan(entries, i) == Err::<CoseKeyView, CoseError>(error),
    ensures
        spec_key_scan(entries, entries.len() as int) == Err::<CoseKeyView, CoseError>(error),
    decreases entries.len() - i,
{
    if i < entries.len() {
        lemma_key_scan_error_persists(entries, i + 1, error);
    }
}

/// Decode a COSE_Key from canonical, untagged CBOR bytes.
pub fn decode_owned_cose_key(bytes: &[u8]) -> (r: Result<CoseKey, CoseError>)
    ensures
        match r {
            Ok(key) => spec_decode_owned_cose_key(bytes@) == Ok::<CoseKeyView, CoseError>(key@),
            Err(error) => spec_decode_owned_cose_key(bytes@) == Err::<CoseKeyView, CoseError>(error),
        },
{
    match validate_cose_key_bytes(bytes) {
        Ok(()) => {},
        Err(error) => return Err(error),
    }
    let decoded = match ciborium_decode(bytes) {
        Some(decoded) => decoded,
        None => return Err(CoseError::Cbor),
    };
    let mut entries = match decoded {
        CborValue::Mapping(entries) => entries,
        _ => return Err(CoseError::Cbor),
    };
    let ghost decoded_entries = entries@;
    let total = entries.len();
    assert(ciborium_decoding(bytes@) matches Some(CborValue::Mapping(e)) && e@ == decoded_entries);
    let mut key = CoseKey::from_parts(
        RegisteredLabel::Assigned(KTY_RESERVED),
        Vec::new(),
        None,
        Vec::new(),
        Vec::new(),
        Vec::new(),
    );
    assert(key@ == spec_empty_key());
    let mut consumed: usize = 0;
    while entries.len() > 0
        invariant
            consumed + entries@.len() == decoded_entries.len(),
            decoded_entries.len() == total,
            entries@ == decoded_entries.skip(consumed as int),
            spec_validate_cbor_bytes(bytes@, MAX_COSE_KEY_BYTES as int, CborItemRole::CoseKeyTop) is Ok,
            ciborium_decoding(bytes@) matches Some(CborValue::Mapping(e)) && e@ == decoded_entries,
            spec_key_scan(decoded_entries, consumed as int) == Ok::<CoseKeyView, CoseError>(key@),
        decreases entries@.len(),
    {
        let (raw_label, raw_value) = entries.remove(0);
        proof {
            assert(decoded_entries[consumed as int] == (raw_label, raw_value));
            assert(entries@ =~= decoded_entries.skip(consumed as int + 1));
        }
        match read_key_entry(&mut key, raw_label, raw_value) {
            Ok(()) => {},
            Err(error) => {
                proof {
                    lemma_key_scan_error_persists(decoded_entries, consumed as int + 1, error);
                }
                return Err(error);
            },
        }
        consumed = consumed + 1;
    }
    proof {
        key.lemma_view();
    }
    if let RegisteredLabel::Assigned(value) = &key.kty {
        if *value == KTY_RESERVED {
            return Err(CoseError::InvalidFormat);
        }
    }
    Ok(key)
}

/// Read one map entry of a COSE_Key into `key`.
fn read_key_entry(key: &mut CoseKey, raw_label: CborValue, raw_value: CborValue) -> (r: Result<
    (),
    CoseError,
>)
    ensures
        match r {
            Ok(()) => spec_key_step(old(key)@, (raw_label, raw_value)) == Ok::<CoseKeyView, CoseError>(
                final(key)@,
            ),
            Err(error) => spec_key_step(old(key)@, (raw_label, raw_value)) == Err::<
                CoseKeyView,
                CoseError,
            >(error),
        },
{
    proof {
        key.lemma_view();
    }
    let ghost entry = (raw_label, raw_value);
    let ghost before = key@;
    let label = match raw_label {
        CborValue::Integer(integer) => if i64::MIN as i128 <= integer && integer <= i64::MAX as i128 {
            Label::Int(integer as i64)
        } else {
            return Err(CoseError::Cbor);
        },
        CborValue::Text(text) => Label::Text(text),
        _ => return Err(CoseError::Cbor),
    };
    assert(spec_parse_label(entry.0) == Ok::<Label, CoseError>(label));
    if label.is_int(KEY_PARAM_KTY) {
        match &raw_value {
            CborValue::Integer(integer) => match parse_key_type_label(*integer) {
                Some(value) => key.kty = RegisteredLabel::Assigned(value),
                None => return Err(CoseError::Cbor),
            },
            CborValue::Text(text) => key.kty = RegisteredLabel::Text(text.clone()),
            _ => return Err(CoseError::Cbor),
        }
    } else if label.is_int(KEY_PARAM_KID) {
        match nonempty_bytes(raw_value) {
            Ok(bytes) => key.key_id = bytes,
            Err(error) => return Err(error),
        }
    } else if label.is_int(KEY_PARAM_ALG) {
        match &raw_value {
            CborValue::Integer(integer) => match parse_algorithm_label(*integer) {
                Some(value) => key.alg = Some(value),
                None => return Err(CoseError::Cbor),
            },
            CborValue::Text(text) => key.alg = Some(RegisteredLabelWithPrivate::Text(text.clone())),
            _ => return Err(CoseError::Cbor),
        }
    } else if label.is_int(KEY_PARAM_KEY_OPS) {
        match parse_key_operations(&raw_value, &mut key.key_ops) {
            Ok(()) => {},
            Err(error) => return Err(error),
        }
    } else if label.is_int(KEY_PARAM_BASE_IV) {
        match nonempty_bytes(raw_value) {
            Ok(bytes) => key.base_iv = bytes,
            Err(error) => return Err(error),
        }
    } else {
        key.params.push((label, raw_value));
    }
    proof {
        key.lemma_view();
        assert(spec_key_step(before, entry) == Ok::<CoseKeyView, CoseError>(key@));
    }
    Ok(())
}

/// Parse and validate one canonical, untagged COSE_Key, and list the
/// provider checks its material must pass.
pub fn parse_cose_key(bytes: &[u8]) -> (r: Result<(CoseKey, Vec<MaterialCheck>), CoseError>)
    ensures
        match r {
            Ok((key, checks)) => {
                &&& spec_decode_owned_cose_key(bytes@) == Ok::<CoseKeyView, CoseError>(key@)
                &&& spec_validate_cose_key_profile(key@) matches Ok(profile)
                &&& spec_profile_checks_hold(key@, profile, checks@)
            },
            Err(error) => match spec_decode_owned_cose_key(bytes@) {
                Err(decode_error) => error == decode_error,
                Ok(key) => spec_validate_cose_key_profile(key) == Err::<KeyProfile, CoseError>(error),
            },
        },
{
    let key = match decode_owned_cose_key(bytes) {
        Ok(key) => key,
        Err(error) => return Err(error),
    };
    match validate_cose_key_profile(&key) {
        Ok((_, checks)) => Ok((key, checks)),
        Err(error) => Err(error),
    }
}

} // verus!
