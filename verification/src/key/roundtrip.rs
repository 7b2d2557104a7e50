//! What a key built from raw public key bytes gives back.

use vstd::prelude::*;

use crate::algorithm::label::{
    iana_algorithm_registered, iana_key_type_registered, spec_algorithm_label, Label, RegisteredLabel,
    RegisteredLabelWithPrivate, COSE_PRIVATE_USE_MAX,
};
use crate::algorithm::primitive::Algorithm;
use crate::algorithm::signature::CoseSignatureAlgorithm;
use crate::cbor::{spec_same_value, CborValue};
use crate::encrypt::codec::spec_label_value_is;
use crate::error::CoseError;

use super::convert::{
    spec_ec_public_point, spec_private_construction_error, spec_private_construction_holds,
    spec_public_construction_error, spec_public_construction_holds,
    spec_selected_ec2_profile, KeyConstruction,
};
use super::ec::{spec_canonical_point, spec_compress, spec_point_form};
use super::encode::{spec_is_key_map, spec_key_fixed_count};
use super::extract::{spec_private_bytes, spec_profile_algorithm, spec_public_bytes};
use super::profile::{
    lemma_akp_label_roundtrip, lemma_ec2_profile_curve_roundtrip, KEY_PARAM_ALG, KEY_PARAM_BASE_IV,
    KEY_PARAM_KID, KEY_PARAM_KTY, KTY_RESERVED, PARAM_AKP_PRIV,
    PARAM_AKP_PUB, PARAM_CRV, PARAM_D, PARAM_X, PARAM_Y,
};
use super::owned::CoseKeyView;
use super::parse::{
    spec_empty_key, spec_key_scan, spec_key_step, spec_nonempty_bytes, spec_parse_key_algorithm,
    spec_parse_key_type, spec_parse_label, spec_same_label,
};
use super::validate::{spec_find_param, spec_validate_cose_key_profile};

verus! {

/// The raw public key that a key built from `public_key` gives back: the
/// bytes as supplied, and for an EC point its canonical compressed form.
pub open spec fn spec_extracted_public_key(
    algorithm: Algorithm,
    signature_algorithm: Option<CoseSignatureAlgorithm>,
    public_key: Seq<u8>,
) -> Seq<u8> {
    match algorithm {
        Algorithm::P256 | Algorithm::P384 | Algorithm::P521 | Algorithm::Secp256k1 => match spec_selected_ec2_profile(
            algorithm,
            signature_algorithm,
        ) {
            Ok(profile) => match spec_canonical_point(profile, public_key) {
                Ok(canonical) => canonical,
                Err(_) => public_key,
            },
            Err(_) => public_key,
        },
        _ => public_key,
    }
}

/// A key built from raw public key bytes is a valid key of the same
/// algorithm whose public key is those bytes (for EC, the canonical
/// compressed point): extracting the public key undoes the construction.
///
/// The registration is kept: a P-256 key built for ES256 carries `alg` -7
/// and validates under the ES256 profile.
pub proof fn lemma_public_key_roundtrip(
    construction: KeyConstruction,
    algorithm: Algorithm,
    signature_algorithm: Option<CoseSignatureAlgorithm>,
    public_key: Seq<u8>,
)
    requires
        spec_public_construction_error(algorithm, signature_algorithm, public_key) is None,
        spec_public_construction_holds(construction, algorithm, signature_algorithm, public_key),
    ensures
        spec_validate_cose_key_profile(construction.key@) matches Ok(profile) && spec_profile_algorithm(
            profile,
        ) == Ok::<Algorithm, CoseError>(algorithm) && spec_public_bytes(construction.key@, profile)
            == spec_extracted_public_key(algorithm, signature_algorithm, public_key),
{
    let key = construction.key@;
    let params = key.params;
    reveal_with_fuel(spec_find_param, 4);
    match algorithm {
        Algorithm::Ed25519 | Algorithm::X25519 => {
            assert(spec_find_param(params, PARAM_CRV, 2) == Some(params[0].1));
            assert(spec_find_param(params, PARAM_X, 2) == Some(params[1].1));
            assert(spec_find_param(params, PARAM_D, 2) is None);
        },
        Algorithm::P256 | Algorithm::P384 | Algorithm::P521 | Algorithm::Secp256k1 => {
            let profile = spec_selected_ec2_profile(algorithm, signature_algorithm)->Ok_0;
            lemma_ec2_profile_curve_roundtrip(algorithm);
            let canonical = spec_ec_public_point(profile, public_key)->Ok_0.0;
            let form = spec_point_form(profile, canonical)->Ok_0;
            let public = params.take(3);
            assert(public =~= params);
            assert(spec_find_param(params, PARAM_CRV, 3) == Some(params[0].1));
            assert(spec_find_param(params, PARAM_X, 3) == Some(params[1].1));
            assert(spec_find_param(params, PARAM_Y, 3) == Some(params[2].1));
            assert(spec_find_param(params, PARAM_D, 3) is None);
            assert(form is Compressed);
            let x = form->Compressed_0;
            let odd = form->Compressed_1;
            assert(spec_compress(x, if odd { 1u8 } else { 0u8 }) =~= canonical);
        },
        _ => {
            lemma_akp_label_roundtrip(algorithm);
            assert(spec_find_param(params, PARAM_AKP_PUB, 1) == Some(params[0].1));
            assert(spec_find_param(params, PARAM_AKP_PRIV, 1) is None);
        },
    }
}

/// One EC point gives one canonical public key: keys built from its raw
/// `x || y` coordinates, its SEC1 uncompressed encoding and its SEC1
/// compressed encoding validate under the same profile and give back the
/// same public key, the compressed point, from which
/// [`canonical_public_key_bytes`](super::derive_kid::canonical_public_key_bytes)
/// rebuilds the canonical key that the `kid` digests.
pub proof fn lemma_point_forms_share_public_key(
    algorithm: Algorithm,
    signature_algorithm: Option<CoseSignatureAlgorithm>,
    x: Seq<u8>,
    y: Seq<u8>,
    from_raw: KeyConstruction,
    from_uncompressed: KeyConstruction,
    from_compressed: KeyConstruction,
)
    requires
        algorithm is P256 || algorithm is P384 || algorithm is P521 || algorithm is Secp256k1,
        spec_public_construction_error(algorithm, signature_algorithm, x + y) is None,
        spec_public_construction_holds(from_raw, algorithm, signature_algorithm, x + y),
        spec_public_construction_holds(
            from_uncompressed,
            algorithm,
            signature_algorithm,
            seq![super::ec::UNCOMPRESSED_POINT_PREFIX] + x + y,
        ),
        spec_public_construction_holds(
            from_compressed,
            algorithm,
            signature_algorithm,
            spec_compress(x, y.last()),
        ),
        x.len() == spec_selected_ec2_profile(algorithm, signature_algorithm)->Ok_0.coordinate_len,
        y.len() == spec_selected_ec2_profile(algorithm, signature_algorithm)->Ok_0.coordinate_len,
    ensures
        spec_validate_cose_key_profile(from_raw.key@) == spec_validate_cose_key_profile(from_uncompressed.key@),
        spec_validate_cose_key_profile(from_raw.key@) == spec_validate_cose_key_profile(from_compressed.key@),
        spec_validate_cose_key_profile(from_raw.key@) matches Ok(profile) && spec_public_bytes(
            from_raw.key@,
            profile,
        ) == spec_compress(x, y.last()) && spec_public_bytes(from_uncompressed.key@, profile)
            == spec_compress(x, y.last()) && spec_public_bytes(from_compressed.key@, profile)
            == spec_compress(x, y.last()),
{
    let profile = spec_selected_ec2_profile(algorithm, signature_algorithm)->Ok_0;
    let sec1 = seq![super::ec::UNCOMPRESSED_POINT_PREFIX] + x + y;
    let compressed = spec_compress(x, y.last());
    super::convert::lemma_point_forms_build_one_key(algorithm, signature_algorithm, x, y, from_raw);
    super::ec::lemma_point_forms_share_canonical_point(profile, x, y);
    lemma_public_key_roundtrip(from_raw, algorithm, signature_algorithm, x + y);
    lemma_public_key_roundtrip(from_uncompressed, algorithm, signature_algorithm, sec1);
    lemma_public_key_roundtrip(from_compressed, algorithm, signature_algorithm, compressed);
}

/// A key built from a raw private key and its public key is a valid key of
/// the same algorithm that gives back that private key and, as in
/// [`lemma_public_key_roundtrip`], the public key.
pub proof fn lemma_private_key_roundtrip(
    construction: KeyConstruction,
    algorithm: Algorithm,
    signature_algorithm: Option<CoseSignatureAlgorithm>,
    private_key: Seq<u8>,
    public_key: Seq<u8>,
)
    requires
        spec_private_construction_error(algorithm, signature_algorithm, private_key, Some(public_key)) is None,
        spec_private_construction_holds(construction, algorithm, signature_algorithm, private_key, public_key),
    ensures
        spec_validate_cose_key_profile(construction.key@) matches Ok(profile) && spec_profile_algorithm(
            profile,
        ) == Ok::<Algorithm, CoseError>(algorithm) && spec_private_bytes(construction.key@, profile)
            == Some(private_key) && spec_public_bytes(construction.key@, profile)
            == spec_extracted_public_key(algorithm, signature_algorithm, public_key),
{
    let key = construction.key@;
    let params = key.params;
    reveal_with_fuel(spec_find_param, 5);
    match algorithm {
        Algorithm::Ed25519 => {
            assert(spec_find_param(params, PARAM_CRV, 3) == Some(params[0].1));
            assert(spec_find_param(params, PARAM_X, 3) == Some(params[1].1));
            assert(spec_find_param(params, PARAM_D, 3) == Some(params[2].1));
        },
        Algorithm::P256 | Algorithm::P384 | Algorithm::P521 | Algorithm::Secp256k1 => {
            let profile = spec_selected_ec2_profile(algorithm, signature_algorithm)->Ok_0;
            lemma_ec2_profile_curve_roundtrip(algorithm);
            let canonical = spec_ec_public_point(profile, public_key)->Ok_0.0;
            let form = spec_point_form(profile, canonical)->Ok_0;
            assert(spec_find_param(params, PARAM_CRV, 4) == Some(params[0].1));
            assert(spec_find_param(params, PARAM_X, 4) == Some(params[1].1));
            assert(spec_find_param(params, PARAM_Y, 4) == Some(params[2].1));
            assert(spec_find_param(params, PARAM_D, 4) == Some(params[3].1));
            assert(form is Compressed);
            let x = form->Compressed_0;
            let odd = form->Compressed_1;
            assert(spec_compress(x, if odd { 1u8 } else { 0u8 }) =~= canonical);
        },
        _ => {
            lemma_akp_label_roundtrip(algorithm);
            assert(spec_find_param(params, PARAM_AKP_PUB, 2) == Some(params[0].1));
            assert(spec_find_param(params, PARAM_AKP_PRIV, 2) == Some(params[1].1));
        },
    }
}

/// Two labels are the same label: equal integers, or texts with the same
/// characters.
pub open spec fn spec_same_param_label(a: Label, b: Label) -> bool {
    match (a, b) {
        (Label::Int(x), Label::Int(y)) => x == y,
        (Label::Text(s), Label::Text(t)) => s@ == t@,
        _ => false,
    }
}

/// Two algorithm labels are the same label.
pub open spec fn spec_same_algorithm_label(a: RegisteredLabelWithPrivate, b: RegisteredLabelWithPrivate) -> bool {
    match (a, b) {
        (RegisteredLabelWithPrivate::Assigned(x), RegisteredLabelWithPrivate::Assigned(y)) => x == y,
        (RegisteredLabelWithPrivate::PrivateUse(x), RegisteredLabelWithPrivate::PrivateUse(y)) => x == y,
        (RegisteredLabelWithPrivate::Text(s), RegisteredLabelWithPrivate::Text(t)) => s@ == t@,
        _ => false,
    }
}

/// Two keys hold the same contents: the same key type, identifier,
/// algorithm, operations and base IV, and the same parameters in the same
/// order.
pub open spec fn spec_same_key(a: CoseKeyView, b: CoseKeyView) -> bool {
    &&& spec_same_label(a.kty, b.kty)
    &&& a.key_id == b.key_id
    &&& match (a.alg, b.alg) {
        (None, None) => true,
        (Some(x), Some(y)) => spec_same_algorithm_label(x, y),
        _ => false,
    }
    &&& a.key_ops.len() == b.key_ops.len()
    &&& (forall|i: int| 0 <= i < a.key_ops.len() ==> spec_same_label(#[trigger] a.key_ops[i], b.key_ops[i]))
    &&& a.base_iv == b.base_iv
    &&& a.params.len() == b.params.len()
    &&& forall|i: int|
        0 <= i < a.params.len() ==> spec_same_param_label(#[trigger] a.params[i].0, b.params[i].0)
            && spec_same_value(a.params[i].1, b.params[i].1)
}

/// `key` is one that reading its map gives back: a key type that is
/// registered and not the reserved one, or text; an algorithm that parses
/// back to itself; no operations; and no further parameter under a label of
/// the common parameters.
pub open spec fn spec_key_reads_back(key: CoseKeyView) -> bool {
    &&& match key.kty {
        RegisteredLabel::Assigned(i) => iana_key_type_registered(i) && i != KTY_RESERVED,
        RegisteredLabel::Text(_) => true,
    }
    &&& (key.alg matches Some(alg) ==> match alg {
        RegisteredLabelWithPrivate::Assigned(i) => iana_algorithm_registered(i),
        RegisteredLabelWithPrivate::PrivateUse(i) => !iana_algorithm_registered(i) && i < COSE_PRIVATE_USE_MAX,
        RegisteredLabelWithPrivate::Text(_) => true,
    })
    &&& key.key_ops.len() == 0
    &&& forall|j: int|
        0 <= j < key.params.len() ==> !(#[trigger] key.params[j].0 matches Label::Int(i) && 1 <= i <= 5)
}

/// Reading gives back what writing wrote: the map that the key encoder
/// builds for a key that reads back is read, entry by entry, into a key
/// with the same contents.
#[verifier::spinoff_prover]
#[verifier::rlimit(40)]
pub proof fn lemma_key_map_roundtrip(value: CborValue, key: CoseKeyView)
    requires
        spec_is_key_map(value, key),
        spec_key_reads_back(key),
    ensures
        spec_key_scan(value->Mapping_0@, value->Mapping_0@.len() as int) matches Ok(read) && spec_same_key(
            key,
            read,
        ) && read.kty != RegisteredLabel::Assigned(KTY_RESERVED),
{
    let entries = value->Mapping_0@;
    let k = if key.key_id.len() > 0 { 1int } else { 0int };
    let a = if key.alg is Some { 1int } else { 0int };
    let b = if key.base_iv.len() > 0 { 1int } else { 0int };
    let fixed = spec_key_fixed_count(key);
    assert(fixed == 1 + k + a + b);
    let kty_read = match entries[0].1 {
        CborValue::Integer(i) => RegisteredLabel::Assigned(i as i64),
        CborValue::Text(t) => RegisteredLabel::Text(t),
        _ => key.kty,
    };
    let k1 = CoseKeyView { kty: kty_read, ..spec_empty_key() };
    assert(spec_key_scan(entries, 0) == Ok::<CoseKeyView, CoseError>(spec_empty_key()));
    assert(spec_parse_label(entries[0].0) == Ok::<Label, CoseError>(Label::Int(KEY_PARAM_KTY)));
    assert(spec_parse_key_type(entries[0].1) == Ok::<RegisteredLabel, CoseError>(kty_read));
    assert(spec_key_step(spec_empty_key(), entries[0]) == Ok::<CoseKeyView, CoseError>(k1));
    assert(spec_key_scan(entries, 1) == Ok::<CoseKeyView, CoseError>(k1));
    let k2 = if k == 1 { CoseKeyView { key_id: key.key_id, ..k1 } } else { k1 };
    if k == 1 {
        assert(spec_parse_label(entries[1].0) == Ok::<Label, CoseError>(Label::Int(KEY_PARAM_KID)));
        assert(spec_nonempty_bytes(entries[1].1) == Ok::<Seq<u8>, CoseError>(key.key_id));
        assert(spec_key_step(k1, entries[1]) == Ok::<CoseKeyView, CoseError>(k2));
    }
    assert(spec_key_scan(entries, 1 + k) == Ok::<CoseKeyView, CoseError>(k2));
    let alg_read = if a == 1 {
        match entries[1 + k].1 {
            CborValue::Integer(i) => spec_algorithm_label(i),
            CborValue::Text(t) => Some(RegisteredLabelWithPrivate::Text(t)),
            _ => None,
        }
    } else {
        None
    };
    let k3 = if a == 1 { CoseKeyView { alg: alg_read, ..k2 } } else { k2 };
    if a == 1 {
        assert(spec_parse_label(entries[1 + k].0) == Ok::<Label, CoseError>(Label::Int(KEY_PARAM_ALG)));
        assert(spec_parse_key_algorithm(entries[1 + k].1) == Ok::<RegisteredLabelWithPrivate, CoseError>(
            alg_read->Some_0,
        ));
        assert(spec_key_step(k2, entries[1 + k]) == Ok::<CoseKeyView, CoseError>(k3));
    }
    assert(spec_key_scan(entries, 1 + k + a) == Ok::<CoseKeyView, CoseError>(k3));
    let k4 = if b == 1 { CoseKeyView { base_iv: key.base_iv, ..k3 } } else { k3 };
    if b == 1 {
        assert(spec_parse_label(entries[1 + k + a].0) == Ok::<Label, CoseError>(Label::Int(KEY_PARAM_BASE_IV)));
        assert(spec_nonempty_bytes(entries[1 + k + a].1) == Ok::<Seq<u8>, CoseError>(key.base_iv));
        assert(spec_key_step(k3, entries[1 + k + a]) == Ok::<CoseKeyView, CoseError>(k4));
    }
    assert(spec_key_scan(entries, fixed) == Ok::<CoseKeyView, CoseError>(k4));
    lemma_key_params_read(entries, key, k4, fixed, key.params.len() as int);
    assert(entries.len() == fixed + key.params.len());
    let read = spec_key_scan(entries, entries.len() as int)->Ok_0;
    assert(key.key_ops =~= read.key_ops);
    if k == 0 {
        assert(key.key_id =~= read.key_id);
    }
    if b == 0 {
        assert(key.base_iv =~= read.base_iv);
    }
}

/// The further parameters of a key map are read in order after its common
/// parameters.
proof fn lemma_key_params_read(entries: Seq<(CborValue, CborValue)>, key: CoseKeyView, common: CoseKeyView, fixed: int, m: int)
    requires
        0 <= fixed,
        0 <= m <= key.params.len(),
        entries.len() == fixed + key.params.len(),
        spec_key_scan(entries, fixed) == Ok::<CoseKeyView, CoseError>(common),
        common.params.len() == 0,
        forall|j: int|
            0 <= j < key.params.len() ==> spec_label_value_is(#[trigger] entries[fixed + j].0, key.params[j].0)
                && spec_same_value(key.params[j].1, entries[fixed + j].1),
        forall|j: int|
            0 <= j < key.params.len() ==> !(#[trigger] key.params[j].0 matches Label::Int(i) && 1 <= i <= 5),
    ensures
        spec_key_scan(entries, fixed + m) matches Ok(read) && {
            &&& read.kty == common.kty
            &&& read.key_id == common.key_id
            &&& read.alg == common.alg
            &&& read.key_ops == common.key_ops
            &&& read.base_iv == common.base_iv
            &&& read.params.len() == m
            &&& forall|j: int|
                0 <= j < m ==> spec_same_param_label(#[trigger] read.params[j].0, key.params[j].0)
                    && spec_same_value(key.params[j].1, read.params[j].1)
        },
    decreases m,
{
    if m > 0 {
        lemma_key_params_read(entries, key, common, fixed, m - 1);
        let before = spec_key_scan(entries, fixed + m - 1)->Ok_0;
        let entry = entries[fixed + m - 1];
        assert(spec_label_value_is(entries[fixed + (m - 1)].0, key.params[m - 1].0));
        assert(spec_same_value(key.params[m - 1].1, entries[fixed + (m - 1)].1));
        assert(!(key.params[m - 1].0 matches Label::Int(i) && 1 <= i <= 5));
        let label = spec_parse_label(entry.0)->Ok_0;
        assert(spec_parse_label(entry.0) is Ok);
        assert(label != Label::Int(1) && label != Label::Int(2) && label != Label::Int(3)
            && label != Label::Int(4) && label != Label::Int(5));
        let after = CoseKeyView { params: before.params.push((label, entry.1)), ..before };
        assert(spec_key_step(before, entry) == Ok::<CoseKeyView, CoseError>(after));
        assert(spec_key_scan(entries, fixed + m - 1) == Ok::<CoseKeyView, CoseError>(before));
        assert(spec_key_scan(entries, fixed + m) == spec_key_step(before, entries[fixed + m - 1]));
        assert(spec_key_scan(entries, fixed + m) == Ok::<CoseKeyView, CoseError>(after));
        assert(spec_same_param_label(after.params[m - 1].0, key.params[m - 1].0));
    }
}

} // verus!
