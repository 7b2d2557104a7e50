//! COSE labels: integers or text, with IANA-registered and private-use
//! integer ranges.

use coset::iana::EnumI64;
use coset::AsCborValue;
use vstd::prelude::*;

verus! {

/// Private-use COSE integer values lie strictly below this bound.
pub const COSE_PRIVATE_USE_MAX: i64 = -65_536;

/// A map label of a COSE header or key parameter.
#[derive(Clone, Debug, PartialEq, Eq)]
pub enum Label {
    /// An integer label.
    Int(i64),
    /// A text label.
    Text(String),
}

/// A label whose integer values are governed by an IANA registry.
#[derive(Clone, Debug, PartialEq, Eq)]
pub enum RegisteredLabel {
    /// An IANA-registered integer value.
    Assigned(i64),
    /// A text value.
    Text(String),
}

/// A label whose integer values are governed by an IANA registry that also
/// reserves a private-use range below [`COSE_PRIVATE_USE_MAX`].
#[derive(Clone, Debug, PartialEq, Eq)]
pub enum RegisteredLabelWithPrivate {
    /// A private-use integer value.
    PrivateUse(i64),
    /// An IANA-registered integer value.
    Assigned(i64),
    /// A text value.
    Text(String),
}

impl Label {
    /// Whether this is the integer label `value`.
    pub fn is_int(&self, value: i64) -> (r: bool)
        ensures
            r == (*self == Label::Int(value)),
    {
        match self {
            Label::Int(v) => *v == value,
            Label::Text(_) => false,
        }
    }
}

/// Whether `value` is registered in coset's IANA COSE Algorithms table
/// (`coset::iana::Algorithm::from_i64` returns a variant).
pub uninterp spec fn iana_algorithm_registered(value: i64) -> bool;

/// The algorithm label that coset parses from the CBOR integer `value`.
pub open spec fn spec_algorithm_label(value: i128) -> Option<RegisteredLabelWithPrivate> {
    if value < i64::MIN || value > i64::MAX {
        None
    } else if iana_algorithm_registered(value as i64) {
        Some(RegisteredLabelWithPrivate::Assigned(value as i64))
    } else if value < COSE_PRIVATE_USE_MAX {
        Some(RegisteredLabelWithPrivate::PrivateUse(value as i64))
    } else {
        None
    }
}

/// Parse a CBOR integer as a COSE algorithm label with
/// `coset::RegisteredLabelWithPrivate::<iana::Algorithm>::from_cbor_value`.
///
/// coset returns an assigned label for a registered value, a private-use
/// label for a value below `-65536`, and an error otherwise or when the
/// integer does not fit in `i64`; which values are registered is named by
/// [`iana_algorithm_registered`].
#[verifier::external_body]
pub(crate) fn parse_algorithm_label(value: i128) -> (r: Option<RegisteredLabelWithPrivate>)
    ensures
        r == (if value < i64::MIN || value > i64::MAX {
            None
        } else if iana_algorithm_registered(value as i64) {
            Some(RegisteredLabelWithPrivate::Assigned(value as i64))
        } else if value < COSE_PRIVATE_USE_MAX {
            Some(RegisteredLabelWithPrivate::PrivateUse(value as i64))
        } else {
            None
        }),
{
    let integer = ciborium::value::Integer::try_from(value).ok()?;
    let label = coset::RegisteredLabelWithPrivate::<coset::iana::Algorithm>::from_cbor_value(
        ciborium::value::Value::Integer(integer),
    ).ok()?;
    Some(match label {
        coset::RegisteredLabelWithPrivate::PrivateUse(value) => RegisteredLabelWithPrivate::PrivateUse(value),
        coset::RegisteredLabelWithPrivate::Assigned(value) => RegisteredLabelWithPrivate::Assigned(value as i64),
        coset::RegisteredLabelWithPrivate::Text(text) => RegisteredLabelWithPrivate::Text(text),
    })
}

/// Whether `value` is registered in coset's IANA COSE Key Types table
/// (`coset::iana::KeyType::from_i64` returns a variant): `Reserved` (0),
/// `OKP`, `EC2`, `RSA`, `Symmetric`, `HSS_LMS`, `WalnutDSA` and `AKP` (7).
pub open spec fn iana_key_type_registered(value: i64) -> bool {
    0 <= value <= 7
}

/// Whether `value` is registered in coset's IANA COSE Key Operations table
/// (`coset::iana::KeyOperation::from_i64` returns a variant): `Sign` (1)
/// through `MacVerify` (10).
pub open spec fn iana_key_operation_registered(value: i64) -> bool {
    1 <= value <= 10
}

/// Parse a CBOR integer as a COSE key type with
/// `coset::RegisteredLabel::<iana::KeyType>::from_cbor_value`, which accepts
/// exactly the registered values that fit in `i64`.
#[verifier::external_body]
pub(crate) fn parse_key_type_label(value: i128) -> (r: Option<i64>)
    ensures
        r == (if i64::MIN <= value <= i64::MAX && iana_key_type_registered(value as i64) {
            Some(value as i64)
        } else {
            None
        }),
{
    let integer = ciborium::value::Integer::try_from(value).ok()?;
    match coset::RegisteredLabel::<coset::iana::KeyType>::from_cbor_value(ciborium::value::Value::Integer(integer)).ok()? {
        coset::RegisteredLabel::Assigned(value) => Some(value as i64),
        coset::RegisteredLabel::Text(_) => None,
    }
}

/// Parse a CBOR integer as a COSE key operation with
/// `coset::RegisteredLabel::<iana::KeyOperation>::from_cbor_value`, which
/// accepts exactly the registered values that fit in `i64`.
#[verifier::external_body]
pub(crate) fn parse_key_operation_label(value: i128) -> (r: Option<i64>)
    ensures
        r == (if i64::MIN <= value <= i64::MAX && iana_key_operation_registered(value as i64) {
            Some(value as i64)
        } else {
            None
        }),
{
    let integer = ciborium::value::Integer::try_from(value).ok()?;
    match coset::RegisteredLabel::<coset::iana::KeyOperation>::from_cbor_value(ciborium::value::Value::Integer(integer)).ok()? {
        coset::RegisteredLabel::Assigned(value) => Some(value as i64),
        coset::RegisteredLabel::Text(_) => None,
    }
}

/// Whether coset's COSE Algorithms registry holds `value`
/// (`coset::iana::Algorithm::from_i64`).
#[verifier::external_body]
pub(crate) fn algorithm_registered(value: i64) -> (r: bool)
    ensures
        r == iana_algorithm_registered(value),
{
    coset::iana::Algorithm::from_i64(value).is_some()
}

/// Whether coset's COSE Key Types registry holds `value`
/// (`coset::iana::KeyType::from_i64`).
#[verifier::external_body]
pub(crate) fn key_type_registered(value: i64) -> (r: bool)
    ensures
        r == iana_key_type_registered(value),
{
    coset::iana::KeyType::from_i64(value).is_some()
}

} // verus!
