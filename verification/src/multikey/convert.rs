//! The bridge between COSE keys and Multikey public keys.
//!
//! A Multikey is a multicodec-prefixed, multibase-encoded public key; the
//! encoding itself is done outside this library. This module maps each
//! supported primitive to its multicodec name and back, and builds the
//! public key on either side.

use vstd::prelude::*;

use crate::algorithm::primitive::Algorithm;
use crate::error::CoseError;
use crate::key::convert::{
    construct_cose_key_from_public_impl, spec_is_public_check, spec_public_construction_error,
    spec_public_construction_holds, KeyConstruction, MaterialCheck,
};
use crate::key::extract::{extract_cose_key_public_impl, spec_profile_algorithm, spec_public_bytes};
use crate::key::owned::CoseKey;
use crate::key::roundtrip::{lemma_public_key_roundtrip, spec_extracted_public_key};
use crate::key::validate::{spec_profile_checks_hold, spec_validate_cose_key_profile};

verus! {

/// The multicodec name of each supported public key type.
pub open spec fn spec_codec_name(algorithm: Algorithm) -> Option<Seq<char>> {
    match algorithm {
        Algorithm::Ed25519 => Some("ed25519-pub"@),
        Algorithm::X25519 => Some("x25519-pub"@),
        Algorithm::P256 => Some("p256-pub"@),
        Algorithm::P384 => Some("p384-pub"@),
        Algorithm::P521 => Some("p521-pub"@),
        Algorithm::Secp256k1 => Some("secp256k1-pub"@),
        Algorithm::MlDsa44 => Some("mldsa-44-pub"@),
        Algorithm::MlDsa65 => Some("mldsa-65-pub"@),
        Algorithm::MlDsa87 => Some("mldsa-87-pub"@),
        Algorithm::MlKem512 => Some("mlkem-512-pub"@),
        Algorithm::MlKem768 => Some("mlkem-768-pub"@),
        Algorithm::MlKem1024 => Some("mlkem-1024-pub"@),
        Algorithm::SlhDsaSha2_128s | Algorithm::XWing768 => None,
    }
}

/// The primitive of a multicodec name; valid codecs without a deliberate
/// COSE_Key representation are unsupported.
pub open spec fn spec_algorithm_for_codec_name(name: Seq<char>) -> Result<Algorithm, CoseError> {
    if name == "ed25519-pub"@ {
        Ok(Algorithm::Ed25519)
    } else if name == "x25519-pub"@ {
        Ok(Algorithm::X25519)
    } else if name == "p256-pub"@ {
        Ok(Algorithm::P256)
    } else if name == "p384-pub"@ {
        Ok(Algorithm::P384)
    } else if name == "p521-pub"@ {
        Ok(Algorithm::P521)
    } else if name == "secp256k1-pub"@ {
        Ok(Algorithm::Secp256k1)
    } else if name == "mldsa-44-pub"@ {
        Ok(Algorithm::MlDsa44)
    } else if name == "mldsa-65-pub"@ {
        Ok(Algorithm::MlDsa65)
    } else if name == "mldsa-87-pub"@ {
        Ok(Algorithm::MlDsa87)
    } else if name == "mlkem-512-pub"@ {
        Ok(Algorithm::MlKem512)
    } else if name == "mlkem-768-pub"@ {
        Ok(Algorithm::MlKem768)
    } else if name == "mlkem-1024-pub"@ {
        Ok(Algorithm::MlKem1024)
    } else {
        Err(CoseError::UnsupportedAlgorithm)
    }
}

/// The multicodec name of a primitive's public key.
pub fn codec_name_for_algorithm(algorithm: Algorithm) -> (r: Result<&'static str, CoseError>)
    ensures
        match r {
            Ok(name) => spec_codec_name(algorithm) == Some(name@),
            Err(error) => error == CoseError::UnsupportedAlgorithm && spec_codec_name(algorithm) is None,
        },
{
    let codec_name = match algorithm {
        Algorithm::Ed25519 => "ed25519-pub",
        Algorithm::X25519 => "x25519-pub",
        Algorithm::P256 => "p256-pub",
        Algorithm::P384 => "p384-pub",
        Algorithm::P521 => "p521-pub",
        Algorithm::Secp256k1 => "secp256k1-pub",
        Algorithm::MlDsa44 => "mldsa-44-pub",
        Algorithm::MlDsa65 => "mldsa-65-pub",
        Algorithm::MlDsa87 => "mldsa-87-pub",
        Algorithm::MlKem512 => "mlkem-512-pub",
        Algorithm::MlKem768 => "mlkem-768-pub",
        Algorithm::MlKem1024 => "mlkem-1024-pub",
        Algorithm::SlhDsaSha2_128s | Algorithm::XWing768 => {
            return Err(CoseError::UnsupportedAlgorithm);
        },
    };
    Ok(codec_name)
}

fn name_is(name: &String, candidate: &str) -> (r: bool)
    ensures
        r == (name@ == candidate@),
{
    *name == candidate.to_owned()
}

/// The primitive of a multicodec name.
pub fn algorithm_for_codec_name(codec_name: &str) -> (r: Result<Algorithm, CoseError>)
    ensures
        r == spec_algorithm_for_codec_name(codec_name@),
{
    let name = codec_name.to_owned();
    if name_is(&name, "ed25519-pub") {
        Ok(Algorithm::Ed25519)
    } else if name_is(&name, "x25519-pub") {
        Ok(Algorithm::X25519)
    } else if name_is(&name, "p256-pub") {
        Ok(Algorithm::P256)
    } else if name_is(&name, "p384-pub") {
        Ok(Algorithm::P384)
    } else if name_is(&name, "p521-pub") {
        Ok(Algorithm::P521)
    } else if name_is(&name, "secp256k1-pub") {
        Ok(Algorithm::Secp256k1)
    } else if name_is(&name, "mldsa-44-pub") {
        Ok(Algorithm::MlDsa44)
    } else if name_is(&name, "mldsa-65-pub") {
        Ok(Algorithm::MlDsa65)
    } else if name_is(&name, "mldsa-87-pub") {
        Ok(Algorithm::MlDsa87)
    } else if name_is(&name, "mlkem-512-pub") {
        Ok(Algorithm::MlKem512)
    } else if name_is(&name, "mlkem-768-pub") {
        Ok(Algorithm::MlKem768)
    } else if name_is(&name, "mlkem-1024-pub") {
        Ok(Algorithm::MlKem1024)
    } else {
        Err(CoseError::UnsupportedAlgorithm)
    }
}

/// The multicodec name and raw public key that a key's Multikey encodes,
/// with the provider checks its material must pass.
pub fn cose_key_multikey_parts(key: &CoseKey) -> (r: Result<(&'static str, Vec<u8>, Vec<MaterialCheck>), CoseError>)
    ensures
        match r {
            Ok((name, public_key, checks)) => {
                &&& spec_validate_cose_key_profile(key@) matches Ok(profile)
                &&& spec_profile_algorithm(profile) matches Ok(algorithm)
                &&& spec_codec_name(algorithm) == Some(name@)
                &&& public_key@ == spec_public_bytes(key@, profile)
                &&& checks@.len() >= 1
                &&& spec_profile_checks_hold(key@, profile, checks@.drop_last())
                &&& spec_is_public_check(checks@.last(), algorithm, public_key@)
            },
            Err(error) => match spec_validate_cose_key_profile(key@) {
                Err(profile_error) => error == profile_error,
                Ok(profile) => match spec_profile_algorithm(profile) {
                    Err(algorithm_error) => error == algorithm_error,
                    Ok(algorithm) => error == CoseError::UnsupportedAlgorithm && spec_codec_name(
                        algorithm,
                    ) is None,
                },
            },
        },
{
    let (public_key, checks) = match extract_cose_key_public_impl(key) {
        Ok(extracted) => extracted,
        Err(error) => return Err(error),
    };
    let algorithm = match &checks[checks.len() - 1] {
        MaterialCheck::PublicKey { algorithm, .. } => *algorithm,
        MaterialCheck::KeyPair { algorithm, .. } => *algorithm,
    };
    let name = match codec_name_for_algorithm(algorithm) {
        Ok(name) => name,
        Err(error) => return Err(error),
    };
    Ok((name, public_key, checks))
}

/// Build the public COSE key of a parsed Multikey's codec name and public
/// key.
pub fn cose_key_from_multikey_parts(codec_name: &str, public_key: &[u8]) -> (r: Result<
    KeyConstruction,
    CoseError,
>)
    ensures
        match r {
            Ok(construction) => {
                &&& spec_algorithm_for_codec_name(codec_name@) matches Ok(algorithm)
                &&& spec_public_construction_error(algorithm, None, public_key@) is None
                &&& spec_public_construction_holds(construction, algorithm, None, public_key@)
            },
            Err(error) => match spec_algorithm_for_codec_name(codec_name@) {
                Err(name_error) => error == name_error,
                Ok(algorithm) => spec_public_construction_error(algorithm, None, public_key@) == Some(
                    error,
                ),
            },
        },
{
    let algorithm = match algorithm_for_codec_name(codec_name) {
        Ok(algorithm) => algorithm,
        Err(error) => return Err(error),
    };
    construct_cose_key_from_public_impl(algorithm, None, public_key)
}

/// Every supported primitive's multicodec name maps back to it, and the
/// two unsupported ones have none.
pub proof fn lemma_codec_name_roundtrip(algorithm: Algorithm)
    ensures
        spec_codec_name(algorithm) matches Some(name) ==> spec_algorithm_for_codec_name(name) == Ok::<
            Algorithm,
            CoseError,
        >(algorithm),
        spec_codec_name(algorithm) is None <==> (algorithm == Algorithm::SlhDsaSha2_128s || algorithm
            == Algorithm::XWing768),
{
    reveal_strlit("ed25519-pub");
    reveal_strlit("x25519-pub");
    reveal_strlit("p256-pub");
    reveal_strlit("p384-pub");
    reveal_strlit("p521-pub");
    reveal_strlit("secp256k1-pub");
    reveal_strlit("mldsa-44-pub");
    reveal_strlit("mldsa-65-pub");
    reveal_strlit("mldsa-87-pub");
    reveal_strlit("mlkem-512-pub");
    reveal_strlit("mlkem-768-pub");
    reveal_strlit("mlkem-1024-pub");
    assert("x25519-pub"@.len() == 10);
    assert("ed25519-pub"@.len() == 11);
    assert("x25519-pub"@ != "ed25519-pub"@);
    assert("p384-pub"@[1] != "p256-pub"@[1]);
    assert("p521-pub"@[1] != "p256-pub"@[1]);
    assert("p521-pub"@[1] != "p384-pub"@[1]);
    assert("mldsa-65-pub"@[6] != "mldsa-44-pub"@[6]);
    assert("mldsa-87-pub"@[6] != "mldsa-44-pub"@[6]);
    assert("mldsa-87-pub"@[6] != "mldsa-65-pub"@[6]);
    assert("mlkem-512-pub"@[0] != "secp256k1-pub"@[0]);
    assert("mlkem-768-pub"@[0] != "secp256k1-pub"@[0]);
    assert("mlkem-768-pub"@[6] != "mlkem-512-pub"@[6]);
}

/// Every accepted multicodec name is the name of the primitive it selects.
pub proof fn lemma_codec_name_for_accepted_name(name: Seq<char>)
    ensures
        spec_algorithm_for_codec_name(name) matches Ok(algorithm) ==> spec_codec_name(algorithm) == Some(name),
{
}

/// A Multikey survives the trip through COSE_Key: the key built from a
/// codec name and public key is valid, of the primitive the name selects,
/// and gives back the same codec name and the public key (for EC, its
/// canonical compressed point).
pub proof fn lemma_multikey_roundtrip(construction: KeyConstruction, name: Seq<char>, public_key: Seq<u8>)
    requires
        spec_algorithm_for_codec_name(name) is Ok,
        spec_public_construction_error(spec_algorithm_for_codec_name(name)->Ok_0, None, public_key) is None,
        spec_public_construction_holds(construction, spec_algorithm_for_codec_name(name)->Ok_0, None, public_key),
    ensures
        spec_validate_cose_key_profile(construction.key@) matches Ok(profile)
            && spec_profile_algorithm(profile) matches Ok(algorithm)
            && spec_codec_name(algorithm) == Some(name)
            && spec_public_bytes(construction.key@, profile) == spec_extracted_public_key(algorithm, None, public_key),
{
    let algorithm = spec_algorithm_for_codec_name(name)->Ok_0;
    lemma_public_key_roundtrip(construction, algorithm, None, public_key);
    lemma_codec_name_for_accepted_name(name);
}

} // verus!
