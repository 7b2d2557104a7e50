//! Validation of COSE keys against the supported profiles.
//!
//! A key is valid when its structure fits its profile and the provider
//! accepts its material; the structural rules are checked here, and the
//! provider checks are listed, in order, for the caller to run.

use vstd::prelude::*;

use crate::algorithm::label::{Label, RegisteredLabel, RegisteredLabelWithPrivate};
use crate::algorithm::primitive::Algorithm;
use crate::cbor::CborValue;
use crate::error::CoseError;

use super::convert::{spec_is_pair_check, spec_is_public_check, MaterialCheck};
use super::ec::{compress_point, spec_compress, UNCOMPRESSED_POINT_PREFIX};
use super::extract::spec_private_bytes;
use super::owned::{CoseKey, CoseKeyView};
use super::profile::{
    akp_profile_from_cose_algorithm, algorithm_for_ec2_profile, ec2_profile_for_key,
    okp_profile, spec_akp_profile_from_cose_algorithm, spec_algorithm_for_ec2_profile,
    spec_ec2_profile_for_key, spec_okp_profile, AkpProfile, Ec2Profile, KeyProfile,
    OkpProfile, KEY_OP_DERIVE_BITS, KEY_OP_DERIVE_KEY, KEY_OP_SIGN, KEY_OP_VERIFY, KTY_AKP,
    KTY_EC2, KTY_OKP, PARAM_AKP_PRIV, PARAM_AKP_PUB, PARAM_CRV, PARAM_D, PARAM_X, PARAM_Y,
};

verus! {

/// The value of the first parameter labelled `label` among the first `n`.
pub open spec fn spec_find_param(params: Seq<(Label, CborValue)>, label: i64, n: int) -> Option<
    CborValue,
>
    decreases n,
{
    if n <= 0 {
        None
    } else {
        match spec_find_param(params, label, n - 1) {
            Some(value) => Some(value),
            None => if params[n - 1].0 == Label::Int(label) {
                Some(params[n - 1].1)
            } else {
                None
            },
        }
    }
}

/// The value of a key's first parameter labelled `label`.
pub open spec fn spec_param(key: CoseKeyView, label: i64) -> Option<CborValue> {
    spec_find_param(key.params, label, key.params.len() as int)
}

/// The byte string of a key's first parameter labelled `label`, if it is
/// one.
pub open spec fn spec_param_bytes(key: CoseKeyView, label: i64) -> Option<Seq<u8>> {
    match spec_param(key, label) {
        Some(CborValue::Bytes(bytes)) => Some(bytes@),
        _ => None,
    }
}

/// The integer of a key's first parameter labelled `label`, if it is one
/// that fits `i64`.
pub open spec fn spec_param_i64(key: CoseKeyView, label: i64) -> Option<i64> {
    match spec_param(key, label) {
        Some(CborValue::Integer(value)) => if i64::MIN <= value <= i64::MAX {
            Some(value as i64)
        } else {
            None
        },
        _ => None,
    }
}

proof fn lemma_found_param_persists(params: Seq<(Label, CborValue)>, label: i64, i: int, value: CborValue)
    requires
        0 <= i <= params.len(),
        spec_find_param(params, label, i) == Some(value),
    ensures
        spec_find_param(params, label, params.len() as int) == Some(value),
    decreases params.len() - i,
{
    if i < params.len() {
        lemma_found_param_persists(params, label, i + 1, value);
    }
}

/// The value of a key's first parameter labelled `label`.
pub fn get_param_value(key: &CoseKey, label: i64) -> (r: Option<&CborValue>)
    ensures
        match r {
            Some(value) => spec_param(key@, label) == Some(*value),
            None => spec_param(key@, label) is None,
        },
{
    proof {
        key.lemma_view();
    }
    let params = &key.params;
    let mut i: usize = 0;
    while i < params.len()
        invariant
            i <= params@.len(),
            params@ == key@.params,
            spec_find_param(params@, label, i as int) is None,
        decreases params@.len() - i,
    {
        let (candidate, value) = &params[i];
        if candidate.is_int(label) {
            proof {
                lemma_found_param_persists(params@, label, i as int + 1, *value);
            }
            return Some(value);
        }
        i = i + 1;
    }
    None
}

/// The byte string of a key's first parameter labelled `label`.
pub fn get_param_bytes(key: &CoseKey, label: i64) -> (r: Option<&[u8]>)
    ensures
        match r {
            Some(bytes) => spec_param_bytes(key@, label) == Some(bytes@),
            None => spec_param_bytes(key@, label) is None,
        },
{
    match get_param_value(key, label) {
        Some(CborValue::Bytes(bytes)) => Some(bytes.as_slice()),
        _ => None,
    }
}

fn get_param_i64(key: &CoseKey, label: i64) -> (r: Option<i64>)
    ensures
        r == spec_param_i64(key@, label),
{
    match get_param_value(key, label) {
        Some(CborValue::Integer(value)) => if i64::MIN as i128 <= *value && *value <= i64::MAX as i128 {
            Some(*value as i64)
        } else {
            None
        },
        _ => None,
    }
}

/// A key's algorithm must be absent or the profile's IANA algorithm.
pub open spec fn spec_key_algorithm_ok(key: CoseKeyView, expected: Option<i64>) -> bool {
    match key.alg {
        None => true,
        Some(RegisteredLabelWithPrivate::Assigned(actual)) => expected == Some(actual),
        _ => false,
    }
}

fn validate_key_algorithm(key: &CoseKey, expected: Option<i64>) -> (r: Result<(), CoseError>)
    ensures
        r is Ok <==> spec_key_algorithm_ok(key@, expected),
        r is Err ==> r == Err::<(), CoseError>(CoseError::UnsupportedAlgorithm),
{
    proof {
        key.lemma_view();
    }
    match (&key.alg, expected) {
        (None, _) => Ok(()),
        (Some(RegisteredLabelWithPrivate::Assigned(actual)), Some(expected)) => if *actual == expected {
            Ok(())
        } else {
            Err(CoseError::UnsupportedAlgorithm)
        },
        _ => Err(CoseError::UnsupportedAlgorithm),
    }
}

/// A present byte-string parameter `label` must have `expected_len` bytes.
pub open spec fn spec_optional_param_len_ok(key: CoseKeyView, label: i64, expected_len: usize) -> bool {
    match spec_param_bytes(key, label) {
        Some(bytes) => bytes.len() == expected_len,
        None => true,
    }
}

fn validate_optional_param_len(key: &CoseKey, label: i64, expected_len: usize) -> (r: Result<
    (),
    CoseError,
>)
    ensures
        r is Ok <==> spec_optional_param_len_ok(key@, label, expected_len),
        r is Err ==> r == Err::<(), CoseError>(CoseError::InvalidKeyMaterial),
{
    match get_param_bytes(key, label) {
        Some(bytes) => if bytes.len() != expected_len {
            Err(CoseError::InvalidKeyMaterial)
        } else {
            Ok(())
        },
        None => Ok(()),
    }
}

/// Whether a key operation is allowed: signature keys may verify, and sign
/// only when they hold the private key; key-agreement and KEM keys may only
/// derive keys or bits.
pub open spec fn spec_key_operation_allowed(
    operation: RegisteredLabel,
    has_private_key: bool,
    is_signature_key: bool,
) -> bool {
    if is_signature_key {
        operation == RegisteredLabel::Assigned(KEY_OP_VERIFY) || (has_private_key && operation
            == RegisteredLabel::Assigned(KEY_OP_SIGN))
    } else {
        operation == RegisteredLabel::Assigned(KEY_OP_DERIVE_KEY) || operation
            == RegisteredLabel::Assigned(KEY_OP_DERIVE_BITS)
    }
}

/// Every key operation of the key is allowed.
pub open spec fn spec_key_operations_ok(key: CoseKeyView, has_private_key: bool, is_signature_key: bool) -> bool {
    forall|i: int|
        0 <= i < key.key_ops.len() ==> spec_key_operation_allowed(
            #[trigger] key.key_ops[i],
            has_private_key,
            is_signature_key,
        )
}

fn operation_is(operation: &RegisteredLabel, value: i64) -> (r: bool)
    ensures
        r == (*operation == RegisteredLabel::Assigned(value)),
{
    match operation {
        RegisteredLabel::Assigned(assigned) => *assigned == value,
        RegisteredLabel::Text(_) => false,
    }
}

fn validate_key_operations(key: &CoseKey, has_private_key: bool, is_signature_key: bool) -> (r: Result<
    (),
    CoseError,
>)
    ensures
        r is Ok <==> spec_key_operations_ok(key@, has_private_key, is_signature_key),
        r is Err ==> r == Err::<(), CoseError>(CoseError::InvalidKeyMaterial),
{
    proof {
        key.lemma_view();
    }
    let operations = &key.key_ops;
    let mut i: usize = 0;
    while i < operations.len()
        invariant
            i <= operations@.len(),
            operations@ == key@.key_ops,
            forall|j: int|
                0 <= j < i ==> spec_key_operation_allowed(
                    #[trigger] operations@[j],
                    has_private_key,
                    is_signature_key,
                ),
        decreases operations@.len() - i,
    {
        let operation = &operations[i];
        let allowed = if is_signature_key {
            operation_is(operation, KEY_OP_VERIFY) || (has_private_key && operation_is(
                operation,
                KEY_OP_SIGN,
            ))
        } else {
            operation_is(operation, KEY_OP_DERIVE_KEY) || operation_is(operation, KEY_OP_DERIVE_BITS)
        };
        if !allowed {
            return Err(CoseError::InvalidKeyMaterial);
        }
        i = i + 1;
    }
    Ok(())
}

/// The structural outcome of validating an OKP key.
pub open spec fn spec_validate_okp(key: CoseKeyView) -> Result<OkpProfile, CoseError> {
    match spec_param_i64(key, PARAM_CRV) {
        None => Err(CoseError::InvalidFormat),
        Some(curve) => match spec_okp_profile(curve) {
            Err(error) => Err(error),
            Ok(profile) => if !spec_key_algorithm_ok(key, profile.alg) {
                Err(CoseError::UnsupportedAlgorithm)
            } else if !spec_optional_param_len_ok(key, PARAM_X, profile.coordinate_len)
                || !spec_optional_param_len_ok(key, PARAM_D, profile.coordinate_len) {
                Err(CoseError::InvalidKeyMaterial)
            } else if spec_param_bytes(key, PARAM_X) is None {
                Err(CoseError::MissingKeyMaterial)
            } else if spec_param_bytes(key, PARAM_D) is Some && profile.alg != Some(-19i64) {
                Err(CoseError::UnsupportedAlgorithm)
            } else if !spec_key_operations_ok(
                key,
                spec_param_bytes(key, PARAM_D) is Some,
                profile.alg == Some(-19i64),
            ) {
                Err(CoseError::InvalidKeyMaterial)
            } else {
                Ok(profile)
            },
        },
    }
}

/// The primitive of an OKP profile.
pub open spec fn spec_okp_algorithm(profile: OkpProfile) -> Algorithm {
    if profile.alg == Some(-19i64) {
        Algorithm::Ed25519
    } else {
        Algorithm::X25519
    }
}

/// The provider checks of a structurally valid OKP key: its public key, and
/// the key pair where it holds the private key.
pub open spec fn spec_okp_checks_hold(key: CoseKeyView, profile: OkpProfile, checks: Seq<MaterialCheck>) -> bool {
    let algorithm = spec_okp_algorithm(profile);
    &&& spec_param_bytes(key, PARAM_X) matches Some(public_key)
    &&& spec_is_public_check(checks[0], algorithm, public_key)
    &&& match spec_param_bytes(key, PARAM_D) {
        Some(private_key) => checks.len() == 2 && spec_is_pair_check(
            checks[1],
            algorithm,
            private_key,
            public_key,
        ),
        None => checks.len() == 1,
    }
}

fn material_checks(algorithm: Algorithm, public_key: &[u8], private_key: Option<&[u8]>) -> (r: Vec<
    MaterialCheck,
>)
    ensures
        spec_is_public_check(r@[0], algorithm, public_key@),
        match private_key {
            Some(d) => r@.len() == 2 && spec_is_pair_check(r@[1], algorithm, d@, public_key@),
            None => r@.len() == 1,
        },
{
    let mut checks: Vec<MaterialCheck> = Vec::new();
    checks.push(MaterialCheck::PublicKey { algorithm, public_key: vstd::slice::slice_to_vec(public_key) });
    match private_key {
        Some(d) => checks.push(
            MaterialCheck::KeyPair {
                algorithm,
                private_key: vstd::slice::slice_to_vec(d),
                public_key: vstd::slice::slice_to_vec(public_key),
            },
        ),
        None => {},
    }
    checks
}

fn validate_okp_profile(key: &CoseKey) -> (r: Result<(OkpProfile, Vec<MaterialCheck>), CoseError>)
    ensures
        match r {
            Ok((profile, checks)) => spec_validate_okp(key@) == Ok::<OkpProfile, CoseError>(profile)
                && spec_okp_checks_hold(key@, profile, checks@),
            Err(error) => spec_validate_okp(key@) == Err::<OkpProfile, CoseError>(error),
        },
{
    let curve = match get_param_i64(key, PARAM_CRV) {
        Some(curve) => curve,
        None => return Err(CoseError::InvalidFormat),
    };
    let profile = match okp_profile(curve) {
        Ok(profile) => profile,
        Err(error) => return Err(error),
    };
    match validate_key_algorithm(key, profile.alg) {
        Ok(()) => {},
        Err(error) => return Err(error),
    }
    match validate_optional_param_len(key, PARAM_X, profile.coordinate_len) {
        Ok(()) => {},
        Err(error) => return Err(error),
    }
    match validate_optional_param_len(key, PARAM_D, profile.coordinate_len) {
        Ok(()) => {},
        Err(error) => return Err(error),
    }
    let public_key = get_param_bytes(key, PARAM_X);
    let private_key = get_param_bytes(key, PARAM_D);
    let public_key = match public_key {
        Some(public_key) => public_key,
        None => return Err(CoseError::MissingKeyMaterial),
    };
    let is_signature = match profile.alg {
        Some(alg) => alg == -19i64,
        None => false,
    };
    if private_key.is_some() && !is_signature {
        return Err(CoseError::UnsupportedAlgorithm);
    }
    match validate_key_operations(key, private_key.is_some(), is_signature) {
        Ok(()) => {},
        Err(error) => return Err(error),
    }
    let algorithm = if is_signature { Algorithm::Ed25519 } else { Algorithm::X25519 };
    Ok((profile, material_checks(algorithm, public_key, private_key)))
}

/// The structural outcome of validating an EC2 key, up to its public point.
pub open spec fn spec_validate_ec2(key: CoseKeyView) -> Result<Ec2Profile, CoseError> {
    match spec_param_i64(key, PARAM_CRV) {
        None => Err(CoseError::InvalidFormat),
        Some(curve) => match spec_ec2_profile_for_key(curve, key.alg) {
            Err(error) => Err(error),
            Ok(profile) => if !spec_key_algorithm_ok(key, Some(profile.alg)) {
                Err(CoseError::UnsupportedAlgorithm)
            } else if !spec_optional_param_len_ok(key, PARAM_X, profile.coordinate_len)
                || !spec_optional_param_len_ok(key, PARAM_D, profile.coordinate_len) {
                Err(CoseError::InvalidKeyMaterial)
            } else if (spec_param(key, PARAM_Y) matches Some(y) && !(y is Bool) && !(y is Bytes)) {
                Err(CoseError::InvalidFormat)
            } else if (spec_param(key, PARAM_Y) matches Some(CborValue::Bytes(y)) && y@.len()
                != profile.coordinate_len) {
                Err(CoseError::InvalidKeyMaterial)
            } else if spec_param_bytes(key, PARAM_X) is None || spec_param(key, PARAM_Y) is None {
                Err(CoseError::MissingKeyMaterial)
            } else if !spec_key_operations_ok(key, spec_param_bytes(key, PARAM_D) is Some, true) {
                Err(CoseError::InvalidKeyMaterial)
            } else {
                match spec_algorithm_for_ec2_profile(profile) {
                    Err(error) => Err(error),
                    Ok(_) => if profile.coordinate_len * 2 + 1 > usize::MAX {
                        Err(CoseError::ResourceLimitExceeded)
                    } else if (spec_param(key, PARAM_Y) matches Some(CborValue::Bytes(y)) && y@.len()
                        == 0) {
                        Err(CoseError::InvalidKeyMaterial)
                    } else {
                        Ok(profile)
                    },
                }
            },
        },
    }
}

/// The provider checks of a structurally valid EC2 key: a full point as
/// supplied, then its compressed point, then the key pair where the key
/// holds the private scalar.
pub open spec fn spec_ec2_checks_hold(key: CoseKeyView, profile: Ec2Profile, checks: Seq<MaterialCheck>) -> bool {
    &&& spec_algorithm_for_ec2_profile(profile) matches Ok(algorithm)
    &&& spec_param_bytes(key, PARAM_X) matches Some(x)
    &&& spec_param(key, PARAM_Y) matches Some(y)
    &&& match y {
        CborValue::Bool(odd) => {
            let compressed = spec_compress(x, if odd { 1u8 } else { 0u8 });
            &&& spec_is_public_check(checks[0], algorithm, compressed)
            &&& match spec_param_bytes(key, PARAM_D) {
                Some(d) => checks.len() == 2 && spec_is_pair_check(checks[1], algorithm, d, compressed),
                None => checks.len() == 1,
            }
        },
        CborValue::Bytes(y) => {
            let compressed = spec_compress(x, y@.last());
            &&& spec_is_public_check(checks[0], algorithm, seq![UNCOMPRESSED_POINT_PREFIX] + x + y@)
            &&& spec_is_public_check(checks[1], algorithm, compressed)
            &&& match spec_param_bytes(key, PARAM_D) {
                Some(d) => checks.len() == 3 && spec_is_pair_check(checks[2], algorithm, d, compressed),
                None => checks.len() == 2,
            }
        },
        _ => false,
    }
}

fn concat3(prefix: u8, a: &[u8], b: &[u8]) -> (r: Vec<u8>)
    ensures
        r@ == seq![prefix] + a@ + b@,
{
    let mut out: Vec<u8> = Vec::new();
    out.push(prefix);
    let mut i: usize = 0;
    while i < a.len()
        invariant
            i <= a@.len(),
            out@ == seq![prefix] + a@.take(i as int),
        decreases a@.len() - i,
    {
        out.push(a[i]);
        proof {
            assert(a@.take(i as int + 1) =~= a@.take(i as int).push(a@[i as int]));
        }
        i = i + 1;
    }
    assert(a@.take(i as int) =~= a@);
    let mut j: usize = 0;
    while j < b.len()
        invariant
            j <= b@.len(),
            out@ == seq![prefix] + a@ + b@.take(j as int),
        decreases b@.len() - j,
    {
        out.push(b[j]);
        proof {
            assert(b@.take(j as int + 1) =~= b@.take(j as int).push(b@[j as int]));
        }
        j = j + 1;
    }
    assert(b@.take(j as int) =~= b@);
    out
}

fn validate_ec2_profile(key: &CoseKey) -> (r: Result<(Ec2Profile, Vec<MaterialCheck>), CoseError>)
    ensures
        match r {
            Ok((profile, checks)) => spec_validate_ec2(key@) == Ok::<Ec2Profile, CoseError>(profile)
                && spec_ec2_checks_hold(key@, profile, checks@),
            Err(error) => spec_validate_ec2(key@) == Err::<Ec2Profile, CoseError>(error),
        },
{
    let curve = match get_param_i64(key, PARAM_CRV) {
        Some(curve) => curve,
        None => return Err(CoseError::InvalidFormat),
    };
    proof {
        key.lemma_view();
    }
    let profile = match ec2_profile_for_key(curve, &key.alg) {
        Ok(profile) => profile,
        Err(error) => return Err(error),
    };
    match validate_key_algorithm(key, Some(profile.alg)) {
        Ok(()) => {},
        Err(error) => return Err(error),
    }
    match validate_optional_param_len(key, PARAM_X, profile.coordinate_len) {
        Ok(()) => {},
        Err(error) => return Err(error),
    }
    match validate_optional_param_len(key, PARAM_D, profile.coordinate_len) {
        Ok(()) => {},
        Err(error) => return Err(error),
    }
    let y = get_param_value(key, PARAM_Y);
    match y {
        Some(CborValue::Bool(_)) => {},
        Some(CborValue::Bytes(y_bytes)) => if y_bytes.len() != profile.coordinate_len {
            return Err(CoseError::InvalidKeyMaterial);
        },
        Some(_) => return Err(CoseError::InvalidFormat),
        None => {},
    }
    let private_key = get_param_bytes(key, PARAM_D);
    let x = get_param_bytes(key, PARAM_X);
    let (x, y) = match (x, y) {
        (Some(x), Some(y)) => (x, y),
        _ => return Err(CoseError::MissingKeyMaterial),
    };
    match validate_key_operations(key, private_key.is_some(), true) {
        Ok(()) => {},
        Err(error) => return Err(error),
    }
    let algorithm = match algorithm_for_ec2_profile(profile) {
        Ok(algorithm) => algorithm,
        Err(error) => return Err(error),
    };
    let raw_len = match profile.coordinate_len.checked_mul(2) {
        Some(length) => length,
        None => return Err(CoseError::ResourceLimitExceeded),
    };
    if raw_len.checked_add(1).is_none() {
        return Err(CoseError::ResourceLimitExceeded);
    }
    let mut checks: Vec<MaterialCheck> = Vec::new();
    let compressed = match y {
        CborValue::Bool(odd) => compress_point(x, if *odd { 1u8 } else { 0u8 }),
        CborValue::Bytes(y_bytes) => {
            if y_bytes.len() == 0 {
                return Err(CoseError::InvalidKeyMaterial);
            }
            checks.push(
                MaterialCheck::PublicKey {
                    algorithm,
                    public_key: concat3(UNCOMPRESSED_POINT_PREFIX, x, y_bytes.as_slice()),
                },
            );
            compress_point(x, y_bytes[y_bytes.len() - 1])
        },
        _ => return Err(CoseError::InvalidFormat),
    };
    let ghost before = checks@;
    checks.push(MaterialCheck::PublicKey { algorithm, public_key: vstd::slice::slice_to_vec(compressed.as_slice()) });
    match private_key {
        Some(d) => checks.push(
            MaterialCheck::KeyPair {
                algorithm,
                private_key: vstd::slice::slice_to_vec(d),
                public_key: compressed,
            },
        ),
        None => {},
    }
    Ok((profile, checks))
}

/// The structural outcome of validating an AKP key.
pub open spec fn spec_validate_akp(key: CoseKeyView) -> Result<AkpProfile, CoseError> {
    match key.alg {
        None => Err(CoseError::UnsupportedAlgorithm),
        Some(alg) => match spec_akp_profile_from_cose_algorithm(alg) {
            Err(error) => Err(error),
            Ok(profile) => if !spec_optional_param_len_ok(key, PARAM_AKP_PUB, profile.public_key_len)
                || !spec_optional_param_len_ok(key, PARAM_AKP_PRIV, profile.private_key_len) {
                Err(CoseError::InvalidKeyMaterial)
            } else if spec_param_bytes(key, PARAM_AKP_PUB) is None {
                Err(CoseError::MissingKeyMaterial)
            } else if !spec_key_operations_ok(
                key,
                spec_param_bytes(key, PARAM_AKP_PRIV) is Some,
                profile.is_signature,
            ) {
                Err(CoseError::InvalidKeyMaterial)
            } else {
                Ok(profile)
            },
        },
    }
}

/// The provider checks of a structurally valid AKP key.
pub open spec fn spec_akp_checks_hold(key: CoseKeyView, profile: AkpProfile, checks: Seq<MaterialCheck>) -> bool {
    &&& spec_param_bytes(key, PARAM_AKP_PUB) matches Some(public_key)
    &&& spec_is_public_check(checks[0], profile.algorithm, public_key)
    &&& match spec_param_bytes(key, PARAM_AKP_PRIV) {
        Some(private_key) => checks.len() == 2 && spec_is_pair_check(
            checks[1],
            profile.algorithm,
            private_key,
            public_key,
        ),
        None => checks.len() == 1,
    }
}

fn validate_akp_profile(key: &CoseKey) -> (r: Result<(AkpProfile, Vec<MaterialCheck>), CoseError>)
    ensures
        match r {
            Ok((profile, checks)) => spec_validate_akp(key@) == Ok::<AkpProfile, CoseError>(profile)
                && spec_akp_checks_hold(key@, profile, checks@),
            Err(error) => spec_validate_akp(key@) == Err::<AkpProfile, CoseError>(error),
        },
{
    proof {
        key.lemma_view();
    }
    let alg = match &key.alg {
        Some(alg) => alg,
        None => return Err(CoseError::UnsupportedAlgorithm),
    };
    let profile = match akp_profile_from_cose_algorithm(alg) {
        Ok(profile) => profile,
        Err(error) => return Err(error),
    };
    match validate_optional_param_len(key, PARAM_AKP_PUB, profile.public_key_len) {
        Ok(()) => {},
        Err(error) => return Err(error),
    }
    match validate_optional_param_len(key, PARAM_AKP_PRIV, profile.private_key_len) {
        Ok(()) => {},
        Err(error) => return Err(error),
    }
    let public_key = match get_param_bytes(key, PARAM_AKP_PUB) {
        Some(public_key) => public_key,
        None => return Err(CoseError::MissingKeyMaterial),
    };
    let private_key = get_param_bytes(key, PARAM_AKP_PRIV);
    match validate_key_operations(key, private_key.is_some(), profile.is_signature) {
        Ok(()) => {},
        Err(error) => return Err(error),
    }
    Ok((profile, material_checks(profile.algorithm, public_key, private_key)))
}

/// The structural outcome of validating a key: its profile by key type.
pub open spec fn spec_validate_cose_key_profile(key: CoseKeyView) -> Result<KeyProfile, CoseError> {
    if key.kty == RegisteredLabel::Assigned(KTY_OKP) {
        match spec_validate_okp(key) {
            Ok(profile) => Ok(KeyProfile::Okp(profile)),
            Err(error) => Err(error),
        }
    } else if key.kty == RegisteredLabel::Assigned(KTY_EC2) {
        match spec_validate_ec2(key) {
            Ok(profile) => Ok(KeyProfile::Ec2(profile)),
            Err(error) => Err(error),
        }
    } else if key.kty == RegisteredLabel::Assigned(KTY_AKP) {
        match spec_validate_akp(key) {
            Ok(profile) => Ok(KeyProfile::Akp(profile)),
            Err(error) => Err(error),
        }
    } else {
        Err(CoseError::UnsupportedAlgorithm)
    }
}

/// The provider checks of a structurally valid key.
pub open spec fn spec_profile_checks_hold(key: CoseKeyView, profile: KeyProfile, checks: Seq<MaterialCheck>) -> bool {
    match profile {
        KeyProfile::Okp(profile) => spec_okp_checks_hold(key, profile, checks),
        KeyProfile::Ec2(profile) => spec_ec2_checks_hold(key, profile, checks),
        KeyProfile::Akp(profile) => spec_akp_checks_hold(key, profile, checks),
    }
}

/// Validate a key's structure against its profile and list the provider
/// checks of its material.
pub fn validate_cose_key_profile(key: &CoseKey) -> (r: Result<(KeyProfile, Vec<MaterialCheck>), CoseError>)
    ensures
        match r {
            Ok((profile, checks)) => spec_validate_cose_key_profile(key@) == Ok::<KeyProfile, CoseError>(
                profile,
            ) && spec_profile_checks_hold(key@, profile, checks@),
            Err(error) => spec_validate_cose_key_profile(key@) == Err::<KeyProfile, CoseError>(error),
        },
{
    proof {
        key.lemma_view();
    }
    let kty = match &key.kty {
        RegisteredLabel::Assigned(kty) => *kty,
        RegisteredLabel::Text(_) => return Err(CoseError::UnsupportedAlgorithm),
    };
    if kty == KTY_OKP {
        match validate_okp_profile(key) {
            Ok((profile, checks)) => Ok((KeyProfile::Okp(profile), checks)),
            Err(error) => Err(error),
        }
    } else if kty == KTY_EC2 {
        match validate_ec2_profile(key) {
            Ok((profile, checks)) => Ok((KeyProfile::Ec2(profile), checks)),
            Err(error) => Err(error),
        }
    } else if kty == KTY_AKP {
        match validate_akp_profile(key) {
            Ok((profile, checks)) => Ok((KeyProfile::Akp(profile), checks)),
            Err(error) => Err(error),
        }
    } else {
        Err(CoseError::UnsupportedAlgorithm)
    }
}

/// Only a key that holds its private key may declare the `sign` operation
/// (1): a key that validates and lists `sign` among its operations has its
/// private parameter (`d`, or the AKP private key).
pub proof fn lemma_sign_operation_needs_private_key(key: CoseKeyView, i: int)
    requires
        0 <= i < key.key_ops.len(),
        key.key_ops[i] == RegisteredLabel::Assigned(1),
    ensures
        spec_validate_cose_key_profile(key) matches Ok(profile) ==> spec_private_bytes(key, profile) is Some,
{
}

} // verus!
