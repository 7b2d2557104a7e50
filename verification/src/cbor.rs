//! The CBOR data model used to build and inspect COSE structures, and the
//! size bound that sizes every encoding buffer.

use ciborium::value::{Integer, Value};
use vstd::prelude::*;

use crate::error::CoseError;

verus! {

/// Largest encoded size of a CBOR item head: the initial byte and an
/// eight-byte argument.
pub const MAX_CBOR_HEAD_BYTES: usize = 9;

/// A CBOR data item.
///
/// Integers cover the CBOR major types 0 and 1, whose values lie in
/// `-2^64 ..= 2^64 - 1`. Floating-point values are outside this profile.
#[derive(Debug, PartialEq, Eq)]
pub enum CborValue {
    /// An unsigned or negative integer.
    Integer(i128),
    /// A byte string.
    Bytes(Vec<u8>),
    /// A UTF-8 text string.
    Text(String),
    /// An array of items.
    Array(Vec<CborValue>),
    /// A map of key/value pairs in encoding order.
    Mapping(Vec<(CborValue, CborValue)>),
    /// A tagged item.
    Tag(u64, Box<CborValue>),
    /// `true` or `false`.
    Bool(bool),
    /// `null`.
    Null,
}

/// Upper bound of the encoded size of an item: one head per item plus the
/// content bytes of byte and text strings.
pub open spec fn spec_upper_bound(value: CborValue) -> nat
    decreases value,
{
    match value {
        CborValue::Integer(_) => MAX_CBOR_HEAD_BYTES as nat,
        CborValue::Bytes(bytes) => MAX_CBOR_HEAD_BYTES as nat + bytes@.len(),
        CborValue::Text(text) => MAX_CBOR_HEAD_BYTES as nat + spec_text_length(text),
        CborValue::Array(items) => MAX_CBOR_HEAD_BYTES as nat + spec_items_bound(items@),
        CborValue::Mapping(entries) => MAX_CBOR_HEAD_BYTES as nat + spec_entries_bound(entries@),
        CborValue::Tag(_, tagged) => MAX_CBOR_HEAD_BYTES as nat + spec_upper_bound(*tagged),
        CborValue::Bool(_) | CborValue::Null => 1,
    }
}

/// The number of UTF-8 bytes of a text string, as `str::len` reports it.
pub open spec fn spec_text_length(text: String) -> nat {
    (vstd::utf8::encode_utf8(text@).len() as usize) as nat
}

/// Sum of the bounds of a sequence of items.
pub open spec fn spec_items_bound(items: Seq<CborValue>) -> nat
    decreases items,
{
    if items.len() == 0 {
        0
    } else {
        spec_items_bound(items.drop_last()) + spec_upper_bound(items.last())
    }
}

/// Sum of the bounds of the keys and values of a sequence of map entries.
pub open spec fn spec_entries_bound(entries: Seq<(CborValue, CborValue)>) -> nat
    decreases entries,
{
    if entries.len() == 0 {
        0
    } else {
        spec_entries_bound(entries.drop_last()) + spec_upper_bound(entries.last().0)
            + spec_upper_bound(entries.last().1)
    }
}

proof fn lemma_items_bound_prefix(items: Seq<CborValue>, i: int)
    requires
        0 <= i <= items.len(),
    ensures
        spec_items_bound(items.take(i)) <= spec_items_bound(items),
    decreases items.len(),
{
    if i < items.len() {
        assert(items.drop_last().take(i) =~= items.take(i));
        lemma_items_bound_prefix(items.drop_last(), i);
    } else {
        assert(items.take(i) =~= items);
    }
}

proof fn lemma_entries_bound_prefix(entries: Seq<(CborValue, CborValue)>, i: int)
    requires
        0 <= i <= entries.len(),
    ensures
        spec_entries_bound(entries.take(i)) <= spec_entries_bound(entries),
    decreases entries.len(),
{
    if i < entries.len() {
        assert(entries.drop_last().take(i) =~= entries.take(i));
        lemma_entries_bound_prefix(entries.drop_last(), i);
    } else {
        assert(entries.take(i) =~= entries);
    }
}

/// The result of bounding an item whose bound is `bound`.
pub open spec fn spec_bound_result(bound: nat) -> Result<usize, CoseError> {
    if bound <= usize::MAX {
        Ok(bound as usize)
    } else {
        Err(CoseError::ResourceLimitExceeded)
    }
}

/// Compute a checked upper bound of the encoded size of `value`.
///
/// Returns [`CoseError::ResourceLimitExceeded`] exactly when the bound does
/// not fit in `usize`.
pub fn encoded_upper_bound(value: &CborValue) -> (r: Result<usize, CoseError>)
    ensures
        r == spec_bound_result(spec_upper_bound(*value)),
    decreases value,
{
    match value {
        CborValue::Bytes(bytes) => upper_bound_for_bytes(bytes.len()),
        CborValue::Text(text) => upper_bound_for_bytes(text.as_str().len()),
        CborValue::Array(values) => {
            let mut size: usize = MAX_CBOR_HEAD_BYTES;
            let mut i: usize = 0;
            while i < values.len()
                invariant
                    i <= values.len(),
                    size == MAX_CBOR_HEAD_BYTES + spec_items_bound(values@.take(i as int)),
                    *value == CborValue::Array(*values),
                decreases values.len() - i,
            {
                proof {
                    assert(values@.take(i as int + 1).drop_last() =~= values@.take(i as int));
                    lemma_items_bound_prefix(values@, i as int + 1);
                }
                let item = match encoded_upper_bound(&values[i]) {
                    Ok(item) => item,
                    Err(error) => return Err(error),
                };
                size = match size.checked_add(item) {
                    Some(size) => size,
                    None => return Err(CoseError::ResourceLimitExceeded),
                };
                i = i + 1;
            }
            proof {
                assert(values@.take(i as int) =~= values@);
            }
            Ok(size)
        },
        CborValue::Mapping(entries) => {
            let mut size: usize = MAX_CBOR_HEAD_BYTES;
            let mut i: usize = 0;
            while i < entries.len()
                invariant
                    i <= entries.len(),
                    size == MAX_CBOR_HEAD_BYTES + spec_entries_bound(entries@.take(i as int)),
                    *value == CborValue::Mapping(*entries),
                decreases entries.len() - i,
            {
                proof {
                    assert(entries@.take(i as int + 1).drop_last() =~= entries@.take(i as int));
                    lemma_entries_bound_prefix(entries@, i as int + 1);
                }
                let key = match encoded_upper_bound(&entries[i].0) {
                    Ok(key) => key,
                    Err(error) => return Err(error),
                };
                size = match size.checked_add(key) {
                    Some(size) => size,
                    None => return Err(CoseError::ResourceLimitExceeded),
                };
                let item = match encoded_upper_bound(&entries[i].1) {
                    Ok(item) => item,
                    Err(error) => return Err(error),
                };
                size = match size.checked_add(item) {
                    Some(size) => size,
                    None => return Err(CoseError::ResourceLimitExceeded),
                };
                i = i + 1;
            }
            proof {
                assert(entries@.take(i as int) =~= entries@);
            }
            Ok(size)
        },
        CborValue::Tag(_, tagged) => match encoded_upper_bound(tagged) {
            Ok(inner) => match MAX_CBOR_HEAD_BYTES.checked_add(inner) {
                Some(size) => Ok(size),
                None => Err(CoseError::ResourceLimitExceeded),
            },
            Err(error) => Err(error),
        },
        CborValue::Integer(_) => Ok(MAX_CBOR_HEAD_BYTES),
        CborValue::Bool(_) | CborValue::Null => Ok(1),
    }
}

/// The bound of a byte or text string of `length` content bytes.
fn upper_bound_for_bytes(length: usize) -> (r: Result<usize, CoseError>)
    ensures
        r == spec_bound_result((MAX_CBOR_HEAD_BYTES + length) as nat),
{
    match MAX_CBOR_HEAD_BYTES.checked_add(length) {
        Some(size) => Ok(size),
        None => Err(CoseError::ResourceLimitExceeded),
    }
}

/// Whether two items hold the same data.
pub open spec fn spec_same_value(a: CborValue, b: CborValue) -> bool
    decreases a,
{
    match (a, b) {
        (CborValue::Integer(x), CborValue::Integer(y)) => x == y,
        (CborValue::Bytes(x), CborValue::Bytes(y)) => x@ == y@,
        (CborValue::Text(x), CborValue::Text(y)) => x@ == y@,
        (CborValue::Array(xs), CborValue::Array(ys)) => xs@.len() == ys@.len() && forall|i: int|
            0 <= i < xs@.len() ==> spec_same_value(#[trigger] xs@[i], ys@[i]),
        (CborValue::Mapping(xs), CborValue::Mapping(ys)) => xs@.len() == ys@.len() && forall|i: int|
            0 <= i < xs@.len() ==> spec_same_value(#[trigger] xs@[i].0, ys@[i].0) && spec_same_value(
                xs@[i].1,
                ys@[i].1,
            ),
        (CborValue::Tag(t, x), CborValue::Tag(u, y)) => t == u && spec_same_value(*x, *y),
        (CborValue::Bool(x), CborValue::Bool(y)) => x == y,
        (CborValue::Null, CborValue::Null) => true,
        _ => false,
    }
}

/// `value` lies within `ciborium`'s data model: every integer in it lies in
/// the CBOR range `-2^64 ..= 2^64 - 1`.
pub open spec fn spec_representable(value: CborValue) -> bool
    decreases value,
{
    match value {
        CborValue::Integer(x) => -0x1_0000_0000_0000_0000 <= x <= 0xffff_ffff_ffff_ffff,
        CborValue::Array(xs) => forall|i: int| 0 <= i < xs@.len() ==> spec_representable(#[trigger] xs@[i]),
        CborValue::Mapping(xs) => forall|i: int|
            0 <= i < xs@.len() ==> spec_representable(#[trigger] xs@[i].0) && spec_representable(xs@[i].1),
        CborValue::Tag(_, x) => spec_representable(*x),
        _ => true,
    }
}

/// Copy an item.
pub fn clone_value(value: &CborValue) -> (r: CborValue)
    ensures
        spec_same_value(*value, r),
    decreases value,
{
    match value {
        CborValue::Integer(x) => CborValue::Integer(*x),
        CborValue::Bytes(x) => CborValue::Bytes(vstd::slice::slice_to_vec(x.as_slice())),
        CborValue::Text(x) => CborValue::Text(x.clone()),
        CborValue::Array(xs) => {
            let mut out: Vec<CborValue> = Vec::new();
            let mut i: usize = 0;
            while i < xs.len()
                invariant
                    i <= xs@.len(),
                    out@.len() == i,
                    *value == CborValue::Array(*xs),
                    forall|j: int| 0 <= j < i ==> spec_same_value(#[trigger] xs@[j], out@[j]),
                decreases xs@.len() - i,
            {
                proof {
                    vstd::std_specs::vec::axiom_vec_index_decreases(*xs, i as int);
                    assert(decreases_to!(*xs => xs[i as int]));
                    assert(decreases_to!(*value => value->Array_0));
                    assert(decreases_to!(*value => xs[i as int]));
                }
                out.push(clone_value(&xs[i]));
                i = i + 1;
            }
            CborValue::Array(out)
        },
        CborValue::Mapping(xs) => {
            let mut out: Vec<(CborValue, CborValue)> = Vec::new();
            let mut i: usize = 0;
            while i < xs.len()
                invariant
                    i <= xs@.len(),
                    out@.len() == i,
                    *value == CborValue::Mapping(*xs),
                    forall|j: int|
                        0 <= j < i ==> spec_same_value(#[trigger] xs@[j].0, out@[j].0)
                            && spec_same_value(xs@[j].1, out@[j].1),
                decreases xs@.len() - i,
            {
                proof {
                    vstd::std_specs::vec::axiom_vec_index_decreases(*xs, i as int);
                    assert(decreases_to!(*xs => xs[i as int]));
                    assert(decreases_to!(*value => value->Mapping_0));
                    assert(decreases_to!(*value => xs[i as int]));
                    assert(decreases_to!(xs[i as int] => xs[i as int].0));
                    assert(decreases_to!(xs[i as int] => xs[i as int].1));
                    assert(decreases_to!(*value => xs[i as int].0));
                    assert(decreases_to!(*value => xs[i as int].1));
                }
                let key = clone_value(&xs[i].0);
                let item = clone_value(&xs[i].1);
                out.push((key, item));
                i = i + 1;
            }
            CborValue::Mapping(out)
        },
        CborValue::Tag(t, x) => CborValue::Tag(*t, Box::new(clone_value(x))),
        CborValue::Bool(x) => CborValue::Bool(*x),
        CborValue::Null => CborValue::Null,
    }
}

/// `ciborium`'s dynamic CBOR value, carried opaquely through the
/// conversions below.
#[verifier::external_type_specification]
#[verifier::external_body]
pub struct ExCiboriumValue(Value);

/// The bytes that `ciborium::ser::into_writer` writes for `value`, or `None`
/// where the value cannot be serialized.
pub uninterp spec fn ciborium_encoding(value: CborValue) -> Option<Seq<u8>>;

/// The item that `ciborium::de::from_reader` reads from the start of
/// `bytes`, or `None` where it fails or reads an item outside this model.
pub uninterp spec fn ciborium_decoding(bytes: Seq<u8>) -> Option<CborValue>;

/// Convert an item of this model to `ciborium`'s value, variant by variant.
/// Nothing is stated of the result: it is only handed to `ciborium`.
#[verifier::external_body]
pub(crate) fn to_ciborium(value: &CborValue) -> Option<Value> {
    Some(match value {
        CborValue::Integer(integer) => Value::Integer(Integer::try_from(*integer).ok()?),
        CborValue::Bytes(bytes) => Value::Bytes(bytes.clone()),
        CborValue::Text(text) => Value::Text(text.clone()),
        CborValue::Array(items) => Value::Array(items.iter().map(to_ciborium).collect::<Option<_>>()?),
        CborValue::Mapping(entries) => Value::Map(entries.iter().map(entry_to_ciborium).collect::<Option<_>>()?),
        CborValue::Tag(tag, tagged) => Value::Tag(*tag, Box::new(to_ciborium(tagged)?)),
        CborValue::Bool(flag) => Value::Bool(*flag),
        CborValue::Null => Value::Null,
    })
}

/// Convert `ciborium`'s value to an item of this model, variant by variant;
/// floating-point and unknown variants have no counterpart.
#[verifier::external_body]
pub(crate) fn from_ciborium(value: Value) -> Option<CborValue> {
    Some(match value {
        Value::Integer(integer) => CborValue::Integer(i128::from(integer)),
        Value::Bytes(bytes) => CborValue::Bytes(bytes),
        Value::Text(text) => CborValue::Text(text),
        Value::Array(items) => CborValue::Array(items.into_iter().map(from_ciborium).collect::<Option<_>>()?),
        Value::Map(entries) => CborValue::Mapping(entries.into_iter().map(entry_from_ciborium).collect::<Option<_>>()?),
        Value::Tag(tag, tagged) => CborValue::Tag(tag, Box::new(from_ciborium(*tagged)?)),
        Value::Bool(flag) => CborValue::Bool(flag),
        Value::Null => CborValue::Null,
        _ => return None,
    })
}

/// Convert a map entry of this model to `ciborium`'s, key and value.
#[verifier::external_body]
fn entry_to_ciborium(entry: &(CborValue, CborValue)) -> Option<(Value, Value)> {
    Some((to_ciborium(&entry.0)?, to_ciborium(&entry.1)?))
}

/// Convert a map entry of `ciborium` to one of this model, key and value.
#[verifier::external_body]
fn entry_from_ciborium(entry: (Value, Value)) -> Option<(CborValue, CborValue)> {
    Some((from_ciborium(entry.0)?, from_ciborium(entry.1)?))
}

/// Serialize `value` with `ciborium::ser::into_writer`; the contract names
/// the bytes written by [`ciborium_encoding`]. Every item whose integers
/// `ciborium::value::Integer` holds converts, and writing into a `Vec`
/// cannot fail, so such an item always serializes.
#[verifier::external_body]
pub(crate) fn ciborium_encode(value: &CborValue) -> (r: Option<Vec<u8>>)
    ensures
        match r {
            Some(bytes) => ciborium_encoding(*value) == Some(bytes@),
            None => ciborium_encoding(*value) is None,
        },
        spec_representable(*value) ==> r is Some,
{
    let mut encoded = Vec::new();
    ciborium::ser::into_writer(&to_ciborium(value)?, &mut encoded).ok()?;
    Some(encoded)
}

/// Serialize `value` with `ciborium::ser::into_writer` into one buffer of
/// `capacity` bytes, allocated once and never grown: the bytes written, or
/// `None` where the serialization fails or does not fit. A writer over a
/// fixed slice reports an error once the slice is full. `ciborium_ll` writes
/// every item head in its shortest form, at most nine bytes, and strings in
/// one definite-length segment, so a buffer of [`spec_upper_bound`] bytes
/// always holds the serialization, which exists for every item whose
/// integers `ciborium::value::Integer` holds.
#[verifier::external_body]
pub(crate) fn ciborium_encode_into(value: &CborValue, capacity: usize) -> (r: Option<Vec<u8>>)
    requires
        capacity <= isize::MAX,
    ensures
        match r {
            Some(bytes) => ciborium_encoding(*value) == Some(bytes@) && bytes@.len() <= capacity,
            None => ciborium_encoding(*value) is None || ciborium_encoding(*value).unwrap().len() > capacity,
        },
        capacity >= spec_upper_bound(*value) ==> (r is None ==> ciborium_encoding(*value) is None),
        capacity >= spec_upper_bound(*value) && spec_representable(*value) ==> r is Some,
{
    let mut encoded = vec![0u8; capacity];
    let written = {
        let mut writer = std::io::Cursor::new(encoded.as_mut_slice());
        ciborium::ser::into_writer(&to_ciborium(value)?, &mut writer).ok()?;
        usize::try_from(writer.position()).ok()?
    };
    encoded.truncate(written);
    Some(encoded)
}

/// Deserialize one item with `ciborium::de::from_reader`; the contract names
/// the item read by [`ciborium_decoding`].
#[verifier::external_body]
pub(crate) fn ciborium_decode(bytes: &[u8]) -> (r: Option<CborValue>)
    ensures
        r == ciborium_decoding(bytes@),
{
    from_ciborium(ciborium::de::from_reader::<Value, _>(bytes).ok()?)
}

/// The result of encoding `value`: its `ciborium` serialization where the
/// size bound fits one allocation (at most `isize::MAX` bytes) and the
/// serialization keeps within it.
pub open spec fn spec_encode_cbor_value(value: CborValue) -> Result<Seq<u8>, CoseError> {
    if spec_upper_bound(value) > isize::MAX {
        Err(CoseError::ResourceLimitExceeded)
    } else {
        match ciborium_encoding(value) {
            Some(bytes) => if bytes.len() <= spec_upper_bound(value) {
                Ok(bytes)
            } else {
                Err(CoseError::Cbor)
            },
            None => Err(CoseError::Cbor),
        }
    }
}

/// Encode a CBOR item into a buffer whose size is fixed in advance by
/// [`encoded_upper_bound`]; an encoder that would write past the bound is
/// refused as [`CoseError::Cbor`].
pub fn encode_cbor_value(value: &CborValue) -> (r: Result<Vec<u8>, CoseError>)
    ensures
        match r {
            Ok(bytes) => spec_encode_cbor_value(*value) == Ok::<Seq<u8>, CoseError>(bytes@),
            Err(error) => spec_encode_cbor_value(*value) == Err::<Seq<u8>, CoseError>(error),
        },
        r == Err::<Vec<u8>, CoseError>(CoseError::Cbor) ==> ciborium_encoding(*value) is None,
        spec_representable(*value) && spec_upper_bound(*value) <= isize::MAX ==> r is Ok,
{
    let capacity = match encoded_upper_bound(value) {
        Ok(capacity) => capacity,
        Err(error) => return Err(error),
    };
    if capacity > isize::MAX as usize {
        return Err(CoseError::ResourceLimitExceeded);
    }
    match ciborium_encode_into(value, capacity) {
        Some(encoded) => Ok(encoded),
        None => Err(CoseError::Cbor),
    }
}

} // verus!
