//! Raw key bytes and primitives of validated COSE keys.

use vstd::prelude::*;

use crate::algorithm::primitive::Algorithm;
use crate::cbor::CborValue;
use crate::error::CoseError;

use super::convert::MaterialCheck;
use super::ec::{compress_point, spec_compress};
use super::owned::{CoseKey, CoseKeyView};
use super::profile::{
    algorithm_for_ec2_profile, spec_algorithm_for_ec2_profile, KeyProfile, PARAM_AKP_PRIV,
    PARAM_AKP_PUB, PARAM_D, PARAM_X, PARAM_Y,
};
use super::validate::{
    get_param_bytes, get_param_value, spec_okp_algorithm, spec_param, spec_param_bytes,
    spec_profile_checks_hold, spec_validate_cose_key_profile, validate_cose_key_profile,
};

verus! {

/// The primitive of a key's profile.
pub open spec fn spec_profile_algorithm(profile: KeyProfile) -> Result<Algorithm, CoseError> {
    match profile {
        KeyProfile::Okp(profile) => Ok(spec_okp_algorithm(profile)),
        KeyProfile::Ec2(profile) => spec_algorithm_for_ec2_profile(profile),
        KeyProfile::Akp(profile) => Ok(profile.algorithm),
    }
}

fn profile_algorithm(profile: KeyProfile) -> (r: Result<Algorithm, CoseError>)
    ensures
        r == spec_profile_algorithm(profile),
{
    match profile {
        KeyProfile::Okp(profile) => {
            let is_signature = match profile.alg {
                Some(alg) => alg == -19i64,
                None => false,
            };
            Ok(if is_signature { Algorithm::Ed25519 } else { Algorithm::X25519 })
        },
        KeyProfile::Ec2(profile) => algorithm_for_ec2_profile(profile),
        KeyProfile::Akp(profile) => Ok(profile.algorithm),
    }
}

/// The primitive of a key, with the provider checks its material must pass.
pub fn algorithm_for_cose_key(key: &CoseKey) -> (r: Result<(Algorithm, Vec<MaterialCheck>), CoseError>)
    ensures
        match r {
            Ok((algorithm, checks)) => spec_validate_cose_key_profile(key@) matches Ok(profile)
                && spec_profile_checks_hold(key@, profile, checks@) && spec_profile_algorithm(
                profile,
            ) == Ok::<Algorithm, CoseError>(algorithm),
            Err(error) => match spec_validate_cose_key_profile(key@) {
                Err(profile_error) => error == profile_error,
                Ok(profile) => spec_profile_algorithm(profile) == Err::<Algorithm, CoseError>(error),
            },
        },
{
    let (profile, checks) = match validate_cose_key_profile(key) {
        Ok(validated) => validated,
        Err(error) => return Err(error),
    };
    match profile_algorithm(profile) {
        Ok(algorithm) => Ok((algorithm, checks)),
        Err(error) => Err(error),
    }
}

/// The raw public key of a structurally valid key: the OKP `x` or AKP
/// `pub` parameter, or the compressed EC2 point.
pub open spec fn spec_public_bytes(key: CoseKeyView, profile: KeyProfile) -> Seq<u8> {
    match profile {
        KeyProfile::Okp(_) => spec_param_bytes(key, PARAM_X)->Some_0,
        KeyProfile::Akp(_) => spec_param_bytes(key, PARAM_AKP_PUB)->Some_0,
        KeyProfile::Ec2(_) => {
            let x = spec_param_bytes(key, PARAM_X)->Some_0;
            match spec_param(key, PARAM_Y) {
                Some(CborValue::Bool(odd)) => spec_compress(x, if odd { 1u8 } else { 0u8 }),
                Some(CborValue::Bytes(y)) => spec_compress(x, y@.last()),
                _ => x,
            }
        },
    }
}

/// Extract the raw public key of a key, with the provider checks its
/// material must pass: those of its profile, then that of the extracted
/// public key.
pub fn extract_cose_key_public_impl(key: &CoseKey) -> (r: Result<(Vec<u8>, Vec<MaterialCheck>), CoseError>)
    ensures
        match r {
            Ok((public_key, checks)) => {
                &&& spec_validate_cose_key_profile(key@) matches Ok(profile)
                &&& public_key@ == spec_public_bytes(key@, profile)
                &&& spec_profile_algorithm(profile) matches Ok(algorithm)
                &&& checks@.len() >= 1
                &&& spec_profile_checks_hold(key@, profile, checks@.drop_last())
                &&& checks@.last() matches MaterialCheck::PublicKey { algorithm: a, public_key: p }
                &&& a == algorithm && p@ == public_key@
            },
            Err(error) => match spec_validate_cose_key_profile(key@) {
                Err(profile_error) => error == profile_error,
                Ok(profile) => spec_profile_algorithm(profile) == Err::<Algorithm, CoseError>(error),
            },
        },
{
    let (profile, mut checks) = match validate_cose_key_profile(key) {
        Ok(validated) => validated,
        Err(error) => return Err(error),
    };
    let algorithm = match profile_algorithm(profile) {
        Ok(algorithm) => algorithm,
        Err(error) => return Err(error),
    };
    let public_key: Vec<u8> = match profile {
        KeyProfile::Okp(_) => match get_param_bytes(key, PARAM_X) {
            Some(x) => vstd::slice::slice_to_vec(x),
            None => return Err(CoseError::MissingKeyMaterial),
        },
        KeyProfile::Akp(_) => match get_param_bytes(key, PARAM_AKP_PUB) {
            Some(public_key) => vstd::slice::slice_to_vec(public_key),
            None => return Err(CoseError::MissingKeyMaterial),
        },
        KeyProfile::Ec2(_) => {
            let x = match get_param_bytes(key, PARAM_X) {
                Some(x) => x,
                None => return Err(CoseError::MissingKeyMaterial),
            };
            match get_param_value(key, PARAM_Y) {
                Some(CborValue::Bool(odd)) => compress_point(x, if *odd { 1u8 } else { 0u8 }),
                Some(CborValue::Bytes(y)) => if y.len() > 0 {
                    compress_point(x, y[y.len() - 1])
                } else {
                    return Err(CoseError::InvalidKeyMaterial);
                },
                _ => return Err(CoseError::InvalidFormat),
            }
        },
    };
    let ghost profile_checks = checks@;
    checks.push(MaterialCheck::PublicKey { algorithm, public_key: vstd::slice::slice_to_vec(public_key.as_slice()) });
    assert(checks@.drop_last() =~= profile_checks);
    Ok((public_key, checks))
}

/// The private parameter of a structurally valid key, if present.
pub open spec fn spec_private_bytes(key: CoseKeyView, profile: KeyProfile) -> Option<Seq<u8>> {
    match profile {
        KeyProfile::Okp(_) | KeyProfile::Ec2(_) => spec_param_bytes(key, PARAM_D),
        KeyProfile::Akp(_) => spec_param_bytes(key, PARAM_AKP_PRIV),
    }
}

/// Extract the raw private key of a key, with the provider checks of its
/// profile.
pub fn extract_cose_key_private_impl(key: &CoseKey) -> (r: Result<(Vec<u8>, Vec<MaterialCheck>), CoseError>)
    ensures
        match r {
            Ok((private_key, checks)) => spec_validate_cose_key_profile(key@) matches Ok(profile)
                && spec_profile_checks_hold(key@, profile, checks@) && spec_private_bytes(key@, profile)
                == Some(private_key@),
            Err(error) => match spec_validate_cose_key_profile(key@) {
                Err(profile_error) => error == profile_error,
                Ok(profile) => error == CoseError::MissingKeyMaterial && spec_private_bytes(
                    key@,
                    profile,
                ) is None,
            },
        },
{
    let (profile, checks) = match validate_cose_key_profile(key) {
        Ok(validated) => validated,
        Err(error) => return Err(error),
    };
    let label = match profile {
        KeyProfile::Okp(_) | KeyProfile::Ec2(_) => PARAM_D,
        KeyProfile::Akp(_) => PARAM_AKP_PRIV,
    };
    match get_param_bytes(key, label) {
        Some(private_key) => Ok((vstd::slice::slice_to_vec(private_key), checks)),
        None => Err(CoseError::MissingKeyMaterial),
    }
}

} // verus!
