//! The COSE_Key model.

use vstd::prelude::*;

use crate::algorithm::label::{Label, RegisteredLabel, RegisteredLabelWithPrivate};
use crate::cbor::CborValue;

verus! {

/// Owned COSE key.
///
/// The fields are private to the crate: keys are built only by the
/// validating constructors and the parser, and the type offers neither
/// `Clone` nor `Debug`, so private parameters are not duplicated or
/// disclosed.
#[must_use]
pub struct CoseKey {
    pub(crate) kty: RegisteredLabel,
    pub(crate) key_id: Vec<u8>,
    pub(crate) alg: Option<RegisteredLabelWithPrivate>,
    pub(crate) key_ops: Vec<RegisteredLabel>,
    pub(crate) base_iv: Vec<u8>,
    pub(crate) params: Vec<(Label, CborValue)>,
}

/// The contents of a COSE key.
pub struct CoseKeyView {
    /// Key type.
    pub kty: RegisteredLabel,
    /// Key identifier.
    pub key_id: Seq<u8>,
    /// Algorithm.
    pub alg: Option<RegisteredLabelWithPrivate>,
    /// Key operations.
    pub key_ops: Seq<RegisteredLabel>,
    /// Base IV.
    pub base_iv: Seq<u8>,
    /// Further parameters in order.
    pub params: Seq<(Label, CborValue)>,
}

impl View for CoseKey {
    type V = CoseKeyView;

    closed spec fn view(&self) -> CoseKeyView {
        CoseKeyView {
            kty: self.kty,
            key_id: self.key_id@,
            alg: self.alg,
            key_ops: self.key_ops@,
            base_iv: self.base_iv@,
            params: self.params@,
        }
    }
}

impl CoseKey {
    /// The view of a key is its fields.
    pub(crate) proof fn lemma_view(&self)
        ensures
            self@.kty == self.kty,
            self@.key_id == self.key_id@,
            self@.alg == self.alg,
            self@.key_ops == self.key_ops@,
            self@.base_iv == self.base_iv@,
            self@.params == self.params@,
    {
    }
}

impl CoseKey {
    /// A key of these parts, taken as given: no profile is checked, so
    /// such a key is validated before use like any other.
    pub fn from_parts(
        kty: RegisteredLabel,
        key_id: Vec<u8>,
        alg: Option<RegisteredLabelWithPrivate>,
        key_ops: Vec<RegisteredLabel>,
        base_iv: Vec<u8>,
        params: Vec<(Label, CborValue)>,
    ) -> (r: CoseKey)
        ensures
            r@ == (CoseKeyView {
                kty,
                key_id: key_id@,
                alg,
                key_ops: key_ops@,
                base_iv: base_iv@,
                params: params@,
            }),
    {
        CoseKey { kty, key_id, alg, key_ops, base_iv, params }
    }
}

} // verus!
