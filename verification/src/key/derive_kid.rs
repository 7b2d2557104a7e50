//! The canonical public COSE_Key bytes that key identifiers are derived
//! from: `kid = SHA-256(canonical public COSE_Key)`, hashed outside this
//! library.

use vstd::prelude::*;

use crate::algorithm::primitive::Algorithm;
use crate::error::CoseError;

use super::convert::{
    akp_key, construct_cose_key_from_public_impl, spec_is_akp_key, spec_public_construction_error,
    spec_public_construction_holds, KeyConstruction, MaterialCheck,
};
use super::encode::{encode_cose_key_value, spec_key_encoding_fails, spec_key_encoding_is};
use super::extract::{
    algorithm_for_cose_key, extract_cose_key_public_impl, spec_profile_algorithm, spec_public_bytes,
};
use super::owned::{CoseKey, CoseKeyView};
use super::profile::{akp_profile, spec_akp_profile};
use super::validate::{spec_profile_checks_hold, spec_validate_cose_key_profile};

verus! {

/// The canonical public COSE_Key of an ML-KEM encapsulation key, whose
/// SHA-256 digest is the recipient `kid` of the ML-KEM `COSE_Encrypt`
/// profile.
pub fn canonical_ml_kem_public_key_bytes(algorithm: Algorithm, public_key: &[u8]) -> (r: Result<
    Vec<u8>,
    CoseError,
>)
    ensures
        match r {
            Ok(bytes) => {
                &&& spec_akp_profile(algorithm) matches Ok(profile)
                &&& !profile.is_signature
                &&& public_key@.len() == profile.public_key_len
                &&& exists|key: CoseKey|
                    #![trigger spec_key_encoding_is(key@, bytes@)]
                    spec_is_akp_key(key@, algorithm, public_key@, None) && spec_key_encoding_is(key@, bytes@)
            },
            Err(error) => match spec_akp_profile(algorithm) {
                Err(profile_error) => error == profile_error,
                Ok(profile) => if profile.is_signature || public_key@.len() != profile.public_key_len {
                    error == CoseError::InvalidKeyMaterial
                } else {
                    exists|key: CoseKey|
                        #![trigger spec_key_encoding_fails(key@, error)]
                        spec_is_akp_key(key@, algorithm, public_key@, None)
                            && spec_key_encoding_fails(key@, error)
                },
            },
        },
{
    let profile = match akp_profile(algorithm) {
        Ok(profile) => profile,
        Err(error) => return Err(error),
    };
    if profile.is_signature || public_key.len() != profile.public_key_len {
        return Err(CoseError::InvalidKeyMaterial);
    }
    let key = match akp_key(algorithm, public_key, None) {
        Ok(key) => key,
        Err(error) => return Err(error),
    };
    let r = encode_cose_key_value(&key);
    match &r {
        Ok(bytes) => assert(spec_key_encoding_is(key@, bytes@)),
        Err(error) => assert(spec_key_encoding_fails(key@, *error)),
    }
    r
}

/// `bytes` are the canonical public COSE_Key of `key`, and `checks` the
/// provider checks it rests on: the encoding of the key that the public key
/// of `key` builds under its algorithm, after the checks of `key`'s profile
/// and then those of the construction.
pub open spec fn spec_canonical_public_key_is(key: CoseKeyView, bytes: Seq<u8>, checks: Seq<MaterialCheck>) -> bool {
    &&& spec_validate_cose_key_profile(key) matches Ok(profile)
    &&& spec_profile_algorithm(profile) matches Ok(algorithm)
    &&& spec_public_construction_error(algorithm, None, spec_public_bytes(key, profile)) is None
    &&& exists|construction: KeyConstruction|
        #![trigger spec_key_encoding_is(construction.key@, bytes)]
        {
            &&& spec_public_construction_holds(construction, algorithm, None, spec_public_bytes(key, profile))
            &&& spec_key_encoding_is(construction.key@, bytes)
            &&& construction.checks@.len() <= checks.len()
            &&& checks.skip(checks.len() - construction.checks@.len()) == construction.checks@
            &&& spec_profile_checks_hold(key, profile, checks.take(checks.len() - construction.checks@.len()))
        }
}

/// Why `key` has no canonical public COSE_Key, once its profile is valid:
/// its algorithm, rebuilding its public key, or encoding the rebuilt key.
pub open spec fn spec_canonical_public_key_fails(key: CoseKeyView, error: CoseError) -> bool {
    match spec_validate_cose_key_profile(key) {
        Err(profile_error) => error == profile_error,
        Ok(profile) => match spec_profile_algorithm(profile) {
            Err(algorithm_error) => error == algorithm_error,
            Ok(algorithm) => match spec_public_construction_error(algorithm, None, spec_public_bytes(key, profile)) {
                Some(construction_error) => error == construction_error,
                None => exists|construction: KeyConstruction|
                    #![trigger spec_key_encoding_fails(construction.key@, error)]
                    spec_public_construction_holds(construction, algorithm, None, spec_public_bytes(key, profile))
                        && spec_key_encoding_fails(construction.key@, error),
            },
        },
    }
}

/// The canonical public COSE_Key of a key: its public key, rebuilt and
/// encoded, with the provider checks that must pass on the way.
///
/// Compressed, raw-coordinate and uncompressed SEC1 points for the same EC
/// point give one canonical key, and the canonical key carries its
/// algorithm, so the same bytes under another algorithm give another key.
pub fn canonical_public_key_bytes(key: &CoseKey) -> (r: Result<(Vec<u8>, Vec<MaterialCheck>), CoseError>)
    ensures
        match r {
            Ok((bytes, checks)) => spec_canonical_public_key_is(key@, bytes@, checks@),
            Err(error) => spec_canonical_public_key_fails(key@, error),
        },
{
    let (algorithm, mut checks) = match algorithm_for_cose_key(key) {
        Ok(found) => found,
        Err(error) => return Err(error),
    };
    let (public_key, _) = match extract_cose_key_public_impl(key) {
        Ok(extracted) => extracted,
        Err(error) => return Err(error),
    };
    let construction = match construct_cose_key_from_public_impl(algorithm, None, public_key.as_slice()) {
        Ok(construction) => construction,
        Err(error) => return Err(error),
    };
    let encoded = match encode_cose_key_value(&construction.key) {
        Ok(encoded) => encoded,
        Err(error) => {
            let ghost witness = construction;
            assert(spec_key_encoding_fails(witness.key@, error));
            return Err(error);
        },
    };
    let ghost witness = construction;
    let ghost profile_checks = checks@;
    let mut construction_checks = construction.checks;
    checks.append(&mut construction_checks);
    proof {
        let profile = spec_validate_cose_key_profile(key@)->Ok_0;
        assert(public_key@ == spec_public_bytes(key@, profile));
        assert(spec_key_encoding_is(witness.key@, encoded@));
        assert(checks@.skip(checks@.len() - witness.checks@.len()) =~= witness.checks@);
        assert(checks@.take(checks@.len() - witness.checks@.len()) =~= profile_checks);
        assert(spec_canonical_public_key_is(key@, encoded@, checks@));
    }
    Ok((encoded, checks))
}

} // verus!
