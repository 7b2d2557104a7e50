//! Wiping the secret-bearing bytes of keys and CBOR items in place.
//!
//! A key may hold private parameters, identifiers and base IVs. Before it is
//! released, every byte string and text string in it is overwritten with
//! zeros by `zeroize` and emptied, so the bytes do not outlive their owner.

use vstd::prelude::*;
use zeroize::Zeroize;

use crate::algorithm::label::{Label, RegisteredLabel, RegisteredLabelWithPrivate};
use crate::cbor::CborValue;

use super::owned::CoseKey;

verus! {

/// `Zeroize for Vec<u8>`: overwrites every byte, spare capacity included,
/// with zeros and then clears the vector, which is left empty.
#[verifier::external_body]
pub(crate) fn zeroize_bytes(bytes: &mut Vec<u8>)
    ensures
        final(bytes)@.len() == 0,
{
    bytes.zeroize();
}

/// `Zeroize for String`: overwrites the string's bytes with zeros and
/// clears it, which leaves it empty.
#[verifier::external_body]
pub(crate) fn zeroize_text(text: &mut String)
    ensures
        final(text)@.len() == 0,
{
    text.zeroize();
}

/// `after` is `before` wiped: the same item, variant by variant, with the
/// same integers, booleans, tags and array and map lengths, in which every
/// byte string and text string is empty.
pub open spec fn spec_wiped_from(before: CborValue, after: CborValue) -> bool
    decreases before,
{
    match (before, after) {
        (CborValue::Integer(x), CborValue::Integer(y)) => x == y,
        (CborValue::Bool(x), CborValue::Bool(y)) => x == y,
        (CborValue::Null, CborValue::Null) => true,
        (CborValue::Bytes(_), CborValue::Bytes(bytes)) => bytes@.len() == 0,
        (CborValue::Text(_), CborValue::Text(text)) => text@.len() == 0,
        (CborValue::Array(xs), CborValue::Array(ys)) => xs@.len() == ys@.len() && forall|i: int|
            0 <= i < xs@.len() ==> spec_wiped_from(#[trigger] xs@[i], ys@[i]),
        (CborValue::Mapping(xs), CborValue::Mapping(ys)) => xs@.len() == ys@.len() && forall|i: int|
            0 <= i < xs@.len() ==> spec_wiped_from(#[trigger] xs@[i].0, ys@[i].0) && spec_wiped_from(
                xs@[i].1,
                ys@[i].1,
            ),
        (CborValue::Tag(s, x), CborValue::Tag(t, y)) => s == t && spec_wiped_from(*x, *y),
        _ => false,
    }
}

/// Wipe every byte string and text string in an item, keeping its shape.
pub fn wipe_value(value: &mut CborValue)
    ensures
        spec_wiped_from(*old(value), *final(value)),
    decreases *old(value),
{
    let ghost whole = *value;
    match value {
        CborValue::Bytes(bytes) => zeroize_bytes(bytes),
        CborValue::Text(text) => zeroize_text(text),
        CborValue::Array(items) => {
            let ghost original = *items;
            let mut i: usize = 0;
            while i < items.len()
                invariant
                    i <= items@.len(),
                    items@.len() == original@.len(),
                    whole == *old(value),
                    whole == CborValue::Array(original),
                    forall|j: int| i <= j < items@.len() ==> items@[j] == original@[j],
                    forall|j: int| 0 <= j < i ==> spec_wiped_from(#[trigger] original@[j], items@[j]),
                decreases items@.len() - i,
            {
                assert(decreases_to!(whole => whole->Array_0));
                assert(decreases_to!(original => original@));
                assert(decreases_to!(original@ => original@[i as int]));
                wipe_value(&mut items[i]);
                i = i + 1;
            }
        },
        CborValue::Mapping(entries) => {
            let ghost original = *entries;
            let mut i: usize = 0;
            while i < entries.len()
                invariant
                    i <= entries@.len(),
                    entries@.len() == original@.len(),
                    whole == *old(value),
                    whole == CborValue::Mapping(original),
                    forall|j: int| i <= j < entries@.len() ==> entries@[j] == original@[j],
                    forall|j: int|
                        0 <= j < i ==> spec_wiped_from(#[trigger] original@[j].0, entries@[j].0)
                            && spec_wiped_from(original@[j].1, entries@[j].1),
                decreases entries@.len() - i,
            {
                assert(decreases_to!(whole => whole->Mapping_0));
                assert(decreases_to!(original => original@));
                assert(decreases_to!(original@ => original@[i as int]));
                assert(decreases_to!(original@[i as int] => original@[i as int].0));
                assert(decreases_to!(original@[i as int] => original@[i as int].1));
                let entry = &mut entries[i];
                wipe_value(&mut entry.0);
                wipe_value(&mut entry.1);
                i = i + 1;
            }
        },
        CborValue::Tag(_, tagged) => wipe_value(tagged),
        _ => {},
    }
}

/// `after` is the label `before` wiped: an integer label is kept, a text
/// label is emptied.
pub open spec fn spec_label_wiped_from(before: Label, after: Label) -> bool {
    match (before, after) {
        (Label::Int(x), Label::Int(y)) => x == y,
        (Label::Text(_), Label::Text(text)) => text@.len() == 0,
        _ => false,
    }
}

/// `after` is the key type `before` wiped: a registered value is kept, a
/// text label is emptied.
pub open spec fn spec_kty_wiped_from(before: RegisteredLabel, after: RegisteredLabel) -> bool {
    match (before, after) {
        (RegisteredLabel::Assigned(x), RegisteredLabel::Assigned(y)) => x == y,
        (RegisteredLabel::Text(_), RegisteredLabel::Text(text)) => text@.len() == 0,
        _ => false,
    }
}

/// `after` is the algorithm `before` wiped: absent stays absent, integer
/// values are kept, a text label is emptied.
pub open spec fn spec_alg_wiped_from(
    before: Option<RegisteredLabelWithPrivate>,
    after: Option<RegisteredLabelWithPrivate>,
) -> bool {
    match (before, after) {
        (None, None) => true,
        (Some(RegisteredLabelWithPrivate::Assigned(x)), Some(RegisteredLabelWithPrivate::Assigned(y))) => x == y,
        (Some(RegisteredLabelWithPrivate::PrivateUse(x)), Some(RegisteredLabelWithPrivate::PrivateUse(y))) => x
            == y,
        (Some(RegisteredLabelWithPrivate::Text(_)), Some(RegisteredLabelWithPrivate::Text(text))) => text@.len()
            == 0,
        _ => false,
    }
}

/// `after` is the key `before` wiped: the identifier, the base IV and the
/// key operations are empty, the key type and algorithm keep their kind
/// with text emptied, and every parameter is kept in place, its label and
/// value wiped.
pub open spec fn spec_key_wiped_from(before: super::owned::CoseKeyView, after: super::owned::CoseKeyView) -> bool {
    &&& after.key_id.len() == 0
    &&& after.base_iv.len() == 0
    &&& after.key_ops.len() == 0
    &&& spec_kty_wiped_from(before.kty, after.kty)
    &&& spec_alg_wiped_from(before.alg, after.alg)
    &&& after.params.len() == before.params.len()
    &&& forall|i: int|
        0 <= i < before.params.len() ==> spec_label_wiped_from(#[trigger] before.params[i].0, after.params[i].0)
            && spec_wiped_from(before.params[i].1, after.params[i].1)
}

/// Wipe every byte-valued field of a key in place, as is done before a key
/// is released.
pub fn wipe_cose_key(key: &mut CoseKey)
    ensures
        spec_key_wiped_from(old(key)@, final(key)@),
{
    proof {
        key.lemma_view();
    }
    let ghost original = key.params@;
    let ghost original_kty = key.kty;
    let ghost original_alg = key.alg;
    let mut i: usize = 0;
    while i < key.key_ops.len()
        invariant
            i <= key.key_ops@.len(),
            key.params@ == original,
            key.kty == original_kty,
            key.alg == original_alg,
        decreases key.key_ops@.len() - i,
    {
        if let RegisteredLabel::Text(text) = &mut key.key_ops[i] {
            zeroize_text(text);
        }
        i = i + 1;
    }
    key.key_ops.clear();
    let mut j: usize = 0;
    while j < key.params.len()
        invariant
            j <= key.params@.len(),
            key.params@.len() == original.len(),
            key.key_ops@.len() == 0,
            key.kty == original_kty,
            key.alg == original_alg,
            forall|k: int| j <= k < key.params@.len() ==> key.params@[k] == original[k],
            forall|k: int|
                0 <= k < j ==> spec_label_wiped_from(#[trigger] original[k].0, key.params@[k].0)
                    && spec_wiped_from(original[k].1, key.params@[k].1),
        decreases key.params@.len() - j,
    {
        let param = &mut key.params[j];
        if let Label::Text(text) = &mut param.0 {
            zeroize_text(text);
        }
        wipe_value(&mut param.1);
        j = j + 1;
    }
    if let RegisteredLabel::Text(text) = &mut key.kty {
        zeroize_text(text);
    }
    zeroize_bytes(&mut key.key_id);
    if let Some(RegisteredLabelWithPrivate::Text(text)) = &mut key.alg {
        zeroize_text(text);
    }
    zeroize_bytes(&mut key.base_iv);
    proof {
        key.lemma_view();
    }
}

} // verus!
