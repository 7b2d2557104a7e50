//! The supported COSE_Key profiles: OKP (Ed25519, X25519), EC2 (P-256,
//! P-384, P-521, secp256k1) and AKP (ML-DSA, ML-KEM).

use vstd::prelude::*;

use crate::algorithm::label::RegisteredLabelWithPrivate;
use crate::algorithm::ml_kem::{
    REALLYME_COSE_ALG_ML_KEM_1024, REALLYME_COSE_ALG_ML_KEM_512, REALLYME_COSE_ALG_ML_KEM_768,
};
use crate::algorithm::primitive::Algorithm;
use crate::algorithm::signature::{
    spec_from_crypto_algorithm, spec_identifier, CoseSignatureAlgorithm,
};
use crate::error::CoseError;

verus! {

/// IANA COSE Key Types value of OKP.
pub const KTY_OKP: i64 = 1;
/// IANA COSE Key Types value of EC2.
pub const KTY_EC2: i64 = 2;
/// IANA COSE Key Types value of AKP.
pub const KTY_AKP: i64 = 7;
/// IANA COSE Key Types reserved value.
pub const KTY_RESERVED: i64 = 0;

/// COSE_Key common parameter `kty`.
pub const KEY_PARAM_KTY: i64 = 1;
/// COSE_Key common parameter `kid`.
pub const KEY_PARAM_KID: i64 = 2;
/// COSE_Key common parameter `alg`.
pub const KEY_PARAM_ALG: i64 = 3;
/// COSE_Key common parameter `key_ops`.
pub const KEY_PARAM_KEY_OPS: i64 = 4;
/// COSE_Key common parameter `Base IV`.
pub const KEY_PARAM_BASE_IV: i64 = 5;

/// OKP and EC2 parameter `crv`.
pub const PARAM_CRV: i64 = -1;
/// OKP and EC2 parameter `x`.
pub const PARAM_X: i64 = -2;
/// EC2 parameter `y`.
pub const PARAM_Y: i64 = -3;
/// OKP and EC2 private parameter `d`.
pub const PARAM_D: i64 = -4;
/// AKP parameter `pub`.
pub const PARAM_AKP_PUB: i64 = -1;
/// AKP parameter `priv`.
pub const PARAM_AKP_PRIV: i64 = -2;

/// IANA curve P-256.
pub const CURVE_P256: i64 = 1;
/// IANA curve P-384.
pub const CURVE_P384: i64 = 2;
/// IANA curve P-521.
pub const CURVE_P521: i64 = 3;
/// IANA curve X25519.
pub const CURVE_X25519: i64 = 4;
/// IANA curve Ed25519.
pub const CURVE_ED25519: i64 = 6;
/// IANA curve secp256k1.
pub const CURVE_SECP256K1: i64 = 8;

/// IANA key operation `sign`.
pub const KEY_OP_SIGN: i64 = 1;
/// IANA key operation `verify`.
pub const KEY_OP_VERIFY: i64 = 2;
/// IANA key operation `derive key`.
pub const KEY_OP_DERIVE_KEY: i64 = 7;
/// IANA key operation `derive bits`.
pub const KEY_OP_DERIVE_BITS: i64 = 8;

/// Ed25519 public key length.
pub const ED25519_PUBLIC_KEY_BYTES: usize = 32;
/// Ed25519 secret key length.
pub const ED25519_SECRET_KEY_BYTES: usize = 32;
/// X25519 public key length.
pub const X25519_PUBLIC_KEY_BYTES: usize = 32;
/// P-256 and secp256k1 coordinate length.
pub const P256_COORDINATE_BYTES: usize = 32;
/// P-384 coordinate length.
pub const P384_COORDINATE_BYTES: usize = 48;
/// P-521 coordinate length.
pub const P521_COORDINATE_BYTES: usize = 66;

/// ML-DSA private seed length.
pub const ML_DSA_PRIVATE_SEED_BYTES: usize = 32;
/// ML-DSA-44 public key length.
pub const ML_DSA_44_PUBLIC_KEY_BYTES: usize = 1_312;
/// ML-DSA-65 public key length.
pub const ML_DSA_65_PUBLIC_KEY_BYTES: usize = 1_952;
/// ML-DSA-87 public key length.
pub const ML_DSA_87_PUBLIC_KEY_BYTES: usize = 2_592;
/// ML-KEM private seed length.
pub const ML_KEM_PRIVATE_SEED_BYTES: usize = 64;
/// ML-KEM-512 public key length.
pub const ML_KEM_512_PUBLIC_KEY_BYTES: usize = 800;
/// ML-KEM-768 public key length.
pub const ML_KEM_768_PUBLIC_KEY_BYTES: usize = 1_184;
/// ML-KEM-1024 public key length.
pub const ML_KEM_1024_PUBLIC_KEY_BYTES: usize = 1_568;

/// The EC2 profile of one signature registration.
#[derive(Clone, Copy, Debug, PartialEq, Eq, Structural)]
pub struct Ec2Profile {
    /// IANA curve.
    pub curve: i64,
    /// IANA algorithm bound into the key.
    pub alg: i64,
    /// Length of one affine coordinate.
    pub coordinate_len: usize,
}

/// The EC2 profile of a signature registration; only the ECDSA
/// registrations have one.
pub open spec fn spec_ec2_profile_for_signature_algorithm(algorithm: CoseSignatureAlgorithm) -> Result<
    Ec2Profile,
    CoseError,
> {
    match algorithm {
        CoseSignatureAlgorithm::Es256 | CoseSignatureAlgorithm::Esp256 => Ok(
            Ec2Profile { curve: CURVE_P256, alg: spec_identifier(algorithm), coordinate_len: P256_COORDINATE_BYTES },
        ),
        CoseSignatureAlgorithm::Esp384 => Ok(
            Ec2Profile { curve: CURVE_P384, alg: spec_identifier(algorithm), coordinate_len: P384_COORDINATE_BYTES },
        ),
        CoseSignatureAlgorithm::Esp512 => Ok(
            Ec2Profile { curve: CURVE_P521, alg: spec_identifier(algorithm), coordinate_len: P521_COORDINATE_BYTES },
        ),
        CoseSignatureAlgorithm::Es256K => Ok(
            Ec2Profile { curve: CURVE_SECP256K1, alg: spec_identifier(algorithm), coordinate_len: P256_COORDINATE_BYTES },
        ),
        _ => Err(CoseError::UnsupportedAlgorithm),
    }
}

/// The EC2 profile of a primitive: that of its default registration.
pub open spec fn spec_ec2_profile(algorithm: Algorithm) -> Result<Ec2Profile, CoseError> {
    match spec_from_crypto_algorithm(algorithm) {
        Ok(registration) => spec_ec2_profile_for_signature_algorithm(registration),
        Err(error) => Err(error),
    }
}

/// Select the EC2 profile of a signature registration.
pub fn ec2_profile_for_signature_algorithm(algorithm: CoseSignatureAlgorithm) -> (r: Result<
    Ec2Profile,
    CoseError,
>)
    ensures
        r == spec_ec2_profile_for_signature_algorithm(algorithm),
{
    match algorithm {
        CoseSignatureAlgorithm::Es256 | CoseSignatureAlgorithm::Esp256 => Ok(
            Ec2Profile { curve: CURVE_P256, alg: algorithm.to_iana(), coordinate_len: P256_COORDINATE_BYTES },
        ),
        CoseSignatureAlgorithm::Esp384 => Ok(
            Ec2Profile { curve: CURVE_P384, alg: algorithm.to_iana(), coordinate_len: P384_COORDINATE_BYTES },
        ),
        CoseSignatureAlgorithm::Esp512 => Ok(
            Ec2Profile { curve: CURVE_P521, alg: algorithm.to_iana(), coordinate_len: P521_COORDINATE_BYTES },
        ),
        CoseSignatureAlgorithm::Es256K => Ok(
            Ec2Profile { curve: CURVE_SECP256K1, alg: algorithm.to_iana(), coordinate_len: P256_COORDINATE_BYTES },
        ),
        CoseSignatureAlgorithm::Ed25519 | CoseSignatureAlgorithm::MlDsa44
        | CoseSignatureAlgorithm::MlDsa65 | CoseSignatureAlgorithm::MlDsa87 => Err(
            CoseError::UnsupportedAlgorithm,
        ),
    }
}

/// Select the EC2 profile of a primitive.
pub fn ec2_profile(algorithm: Algorithm) -> (r: Result<Ec2Profile, CoseError>)
    ensures
        r == spec_ec2_profile(algorithm),
{
    match CoseSignatureAlgorithm::from_crypto_algorithm(algorithm) {
        Ok(registration) => ec2_profile_for_signature_algorithm(registration),
        Err(error) => Err(error),
    }
}

/// The EC2 profile of an IANA curve.
pub open spec fn spec_ec2_profile_from_curve(curve: i64) -> Result<Ec2Profile, CoseError> {
    if curve == CURVE_P256 {
        spec_ec2_profile(Algorithm::P256)
    } else if curve == CURVE_P384 {
        spec_ec2_profile(Algorithm::P384)
    } else if curve == CURVE_P521 {
        spec_ec2_profile(Algorithm::P521)
    } else if curve == CURVE_SECP256K1 {
        spec_ec2_profile(Algorithm::Secp256k1)
    } else {
        Err(CoseError::UnsupportedAlgorithm)
    }
}

/// The EC2 profile of a key on `curve` that carries the algorithm `alg`: the
/// registration stored in the key is kept, so a P-256 key bound to ES256
/// (`-7`) has the ES256 profile, while every other key has the default
/// profile of its curve (ESP256, `-9`, for P-256).
pub open spec fn spec_ec2_profile_for_key(curve: i64, alg: Option<RegisteredLabelWithPrivate>) -> Result<
    Ec2Profile,
    CoseError,
> {
    if curve == CURVE_P256 && alg == Some(
        RegisteredLabelWithPrivate::Assigned(spec_identifier(CoseSignatureAlgorithm::Es256)),
    ) {
        spec_ec2_profile_for_signature_algorithm(CoseSignatureAlgorithm::Es256)
    } else {
        spec_ec2_profile_from_curve(curve)
    }
}

/// Select the EC2 profile of a key from its curve and stored algorithm.
pub fn ec2_profile_for_key(curve: i64, alg: &Option<RegisteredLabelWithPrivate>) -> (r: Result<
    Ec2Profile,
    CoseError,
>)
    ensures
        r == spec_ec2_profile_for_key(curve, *alg),
{
    if curve == CURVE_P256 {
        if let Some(RegisteredLabelWithPrivate::Assigned(value)) = alg {
            if *value == CoseSignatureAlgorithm::Es256.to_iana() {
                return ec2_profile_for_signature_algorithm(CoseSignatureAlgorithm::Es256);
            }
        }
    }
    ec2_profile_from_curve(curve)
}

/// Select the EC2 profile of an IANA curve.
pub fn ec2_profile_from_curve(curve: i64) -> (r: Result<Ec2Profile, CoseError>)
    ensures
        r == spec_ec2_profile_from_curve(curve),
{
    if curve == CURVE_P256 {
        return ec2_profile(Algorithm::P256);
    }
    if curve == CURVE_P384 {
        return ec2_profile(Algorithm::P384);
    }
    if curve == CURVE_P521 {
        return ec2_profile(Algorithm::P521);
    }
    if curve == CURVE_SECP256K1 {
        return ec2_profile(Algorithm::Secp256k1);
    }
    Err(CoseError::UnsupportedAlgorithm)
}

/// The primitive of an EC2 profile's curve.
pub open spec fn spec_algorithm_for_ec2_profile(profile: Ec2Profile) -> Result<Algorithm, CoseError> {
    if profile.curve == CURVE_P256 {
        Ok(Algorithm::P256)
    } else if profile.curve == CURVE_P384 {
        Ok(Algorithm::P384)
    } else if profile.curve == CURVE_P521 {
        Ok(Algorithm::P521)
    } else if profile.curve == CURVE_SECP256K1 {
        Ok(Algorithm::Secp256k1)
    } else {
        Err(CoseError::UnsupportedAlgorithm)
    }
}

/// The primitive of an EC2 profile's curve.
pub fn algorithm_for_ec2_profile(profile: Ec2Profile) -> (r: Result<Algorithm, CoseError>)
    ensures
        r == spec_algorithm_for_ec2_profile(profile),
{
    if profile.curve == CURVE_P256 {
        Ok(Algorithm::P256)
    } else if profile.curve == CURVE_P384 {
        Ok(Algorithm::P384)
    } else if profile.curve == CURVE_P521 {
        Ok(Algorithm::P521)
    } else if profile.curve == CURVE_SECP256K1 {
        Ok(Algorithm::Secp256k1)
    } else {
        Err(CoseError::UnsupportedAlgorithm)
    }
}

/// The AKP profile of one ML-DSA or ML-KEM parameter set.
#[derive(Clone, Copy, Debug, PartialEq, Eq, Structural)]
pub struct AkpProfile {
    /// The primitive.
    pub algorithm: Algorithm,
    /// Public key length.
    pub public_key_len: usize,
    /// Private seed length.
    pub private_key_len: usize,
    /// Whether the key signs (ML-DSA) rather than encapsulates (ML-KEM).
    pub is_signature: bool,
}

/// The AKP profile of a primitive.
pub open spec fn spec_akp_profile(algorithm: Algorithm) -> Result<AkpProfile, CoseError> {
    match algorithm {
        Algorithm::MlDsa44 => Ok(AkpProfile { algorithm, public_key_len: ML_DSA_44_PUBLIC_KEY_BYTES, private_key_len: ML_DSA_PRIVATE_SEED_BYTES, is_signature: true }),
        Algorithm::MlDsa65 => Ok(AkpProfile { algorithm, public_key_len: ML_DSA_65_PUBLIC_KEY_BYTES, private_key_len: ML_DSA_PRIVATE_SEED_BYTES, is_signature: true }),
        Algorithm::MlDsa87 => Ok(AkpProfile { algorithm, public_key_len: ML_DSA_87_PUBLIC_KEY_BYTES, private_key_len: ML_DSA_PRIVATE_SEED_BYTES, is_signature: true }),
        Algorithm::MlKem512 => Ok(AkpProfile { algorithm, public_key_len: ML_KEM_512_PUBLIC_KEY_BYTES, private_key_len: ML_KEM_PRIVATE_SEED_BYTES, is_signature: false }),
        Algorithm::MlKem768 => Ok(AkpProfile { algorithm, public_key_len: ML_KEM_768_PUBLIC_KEY_BYTES, private_key_len: ML_KEM_PRIVATE_SEED_BYTES, is_signature: false }),
        Algorithm::MlKem1024 => Ok(AkpProfile { algorithm, public_key_len: ML_KEM_1024_PUBLIC_KEY_BYTES, private_key_len: ML_KEM_PRIVATE_SEED_BYTES, is_signature: false }),
        _ => Err(CoseError::UnsupportedAlgorithm),
    }
}

/// Select the AKP profile of a primitive.
pub fn akp_profile(algorithm: Algorithm) -> (r: Result<AkpProfile, CoseError>)
    ensures
        r == spec_akp_profile(algorithm),
{
    match algorithm {
        Algorithm::MlDsa44 => Ok(AkpProfile { algorithm, public_key_len: ML_DSA_44_PUBLIC_KEY_BYTES, private_key_len: ML_DSA_PRIVATE_SEED_BYTES, is_signature: true }),
        Algorithm::MlDsa65 => Ok(AkpProfile { algorithm, public_key_len: ML_DSA_65_PUBLIC_KEY_BYTES, private_key_len: ML_DSA_PRIVATE_SEED_BYTES, is_signature: true }),
        Algorithm::MlDsa87 => Ok(AkpProfile { algorithm, public_key_len: ML_DSA_87_PUBLIC_KEY_BYTES, private_key_len: ML_DSA_PRIVATE_SEED_BYTES, is_signature: true }),
        Algorithm::MlKem512 => Ok(AkpProfile { algorithm, public_key_len: ML_KEM_512_PUBLIC_KEY_BYTES, private_key_len: ML_KEM_PRIVATE_SEED_BYTES, is_signature: false }),
        Algorithm::MlKem768 => Ok(AkpProfile { algorithm, public_key_len: ML_KEM_768_PUBLIC_KEY_BYTES, private_key_len: ML_KEM_PRIVATE_SEED_BYTES, is_signature: false }),
        Algorithm::MlKem1024 => Ok(AkpProfile { algorithm, public_key_len: ML_KEM_1024_PUBLIC_KEY_BYTES, private_key_len: ML_KEM_PRIVATE_SEED_BYTES, is_signature: false }),
        _ => Err(CoseError::UnsupportedAlgorithm),
    }
}

/// The COSE algorithm bound into an AKP key of a primitive: the IANA ML-DSA
/// registrations, and the ReallyMe private-use ML-KEM identifiers.
pub open spec fn spec_akp_algorithm_label(algorithm: Algorithm) -> Result<RegisteredLabelWithPrivate, CoseError> {
    match algorithm {
        Algorithm::MlDsa44 => Ok(RegisteredLabelWithPrivate::Assigned(-48i64)),
        Algorithm::MlDsa65 => Ok(RegisteredLabelWithPrivate::Assigned(-49i64)),
        Algorithm::MlDsa87 => Ok(RegisteredLabelWithPrivate::Assigned(-50i64)),
        Algorithm::MlKem512 => Ok(RegisteredLabelWithPrivate::PrivateUse(REALLYME_COSE_ALG_ML_KEM_512)),
        Algorithm::MlKem768 => Ok(RegisteredLabelWithPrivate::PrivateUse(REALLYME_COSE_ALG_ML_KEM_768)),
        Algorithm::MlKem1024 => Ok(RegisteredLabelWithPrivate::PrivateUse(REALLYME_COSE_ALG_ML_KEM_1024)),
        _ => Err(CoseError::UnsupportedAlgorithm),
    }
}

/// The AKP profile named by a key's algorithm label.
pub open spec fn spec_akp_profile_from_cose_algorithm(algorithm: RegisteredLabelWithPrivate) -> Result<
    AkpProfile,
    CoseError,
> {
    match algorithm {
        RegisteredLabelWithPrivate::Assigned(value) => if value == -48i64 {
            spec_akp_profile(Algorithm::MlDsa44)
        } else if value == -49i64 {
            spec_akp_profile(Algorithm::MlDsa65)
        } else if value == -50i64 {
            spec_akp_profile(Algorithm::MlDsa87)
        } else {
            Err(CoseError::UnsupportedAlgorithm)
        },
        RegisteredLabelWithPrivate::PrivateUse(value) => if value == REALLYME_COSE_ALG_ML_KEM_512 {
            spec_akp_profile(Algorithm::MlKem512)
        } else if value == REALLYME_COSE_ALG_ML_KEM_768 {
            spec_akp_profile(Algorithm::MlKem768)
        } else if value == REALLYME_COSE_ALG_ML_KEM_1024 {
            spec_akp_profile(Algorithm::MlKem1024)
        } else {
            Err(CoseError::UnsupportedAlgorithm)
        },
        RegisteredLabelWithPrivate::Text(_) => Err(CoseError::UnsupportedAlgorithm),
    }
}

/// Select the AKP profile named by a key's algorithm label.
pub fn akp_profile_from_cose_algorithm(algorithm: &RegisteredLabelWithPrivate) -> (r: Result<
    AkpProfile,
    CoseError,
>)
    ensures
        r == spec_akp_profile_from_cose_algorithm(*algorithm),
{
    match algorithm {
        RegisteredLabelWithPrivate::Assigned(value) => if *value == -48 {
            akp_profile(Algorithm::MlDsa44)
        } else if *value == -49 {
            akp_profile(Algorithm::MlDsa65)
        } else if *value == -50 {
            akp_profile(Algorithm::MlDsa87)
        } else {
            Err(CoseError::UnsupportedAlgorithm)
        },
        RegisteredLabelWithPrivate::PrivateUse(value) => if *value == REALLYME_COSE_ALG_ML_KEM_512 {
            akp_profile(Algorithm::MlKem512)
        } else if *value == REALLYME_COSE_ALG_ML_KEM_768 {
            akp_profile(Algorithm::MlKem768)
        } else if *value == REALLYME_COSE_ALG_ML_KEM_1024 {
            akp_profile(Algorithm::MlKem1024)
        } else {
            Err(CoseError::UnsupportedAlgorithm)
        },
        RegisteredLabelWithPrivate::Text(_) => Err(CoseError::UnsupportedAlgorithm),
    }
}

/// The COSE algorithm label bound into an AKP key.
pub fn akp_algorithm_label(algorithm: Algorithm) -> (r: Result<RegisteredLabelWithPrivate, CoseError>)
    ensures
        r == spec_akp_algorithm_label(algorithm),
{
    match algorithm {
        Algorithm::MlDsa44 => Ok(RegisteredLabelWithPrivate::Assigned(-48i64)),
        Algorithm::MlDsa65 => Ok(RegisteredLabelWithPrivate::Assigned(-49i64)),
        Algorithm::MlDsa87 => Ok(RegisteredLabelWithPrivate::Assigned(-50i64)),
        Algorithm::MlKem512 => Ok(RegisteredLabelWithPrivate::PrivateUse(REALLYME_COSE_ALG_ML_KEM_512)),
        Algorithm::MlKem768 => Ok(RegisteredLabelWithPrivate::PrivateUse(REALLYME_COSE_ALG_ML_KEM_768)),
        Algorithm::MlKem1024 => Ok(RegisteredLabelWithPrivate::PrivateUse(REALLYME_COSE_ALG_ML_KEM_1024)),
        _ => Err(CoseError::UnsupportedAlgorithm),
    }
}

/// The OKP profile of one curve: Ed25519 keys are bound to the Ed25519
/// algorithm, X25519 keys to none.
#[derive(Clone, Copy, Debug, PartialEq, Eq, Structural)]
pub struct OkpProfile {
    /// Algorithm bound into the key.
    pub alg: Option<i64>,
    /// Public and private key length.
    pub coordinate_len: usize,
}

/// The OKP profile of an IANA curve.
pub open spec fn spec_okp_profile(curve: i64) -> Result<OkpProfile, CoseError> {
    if curve == CURVE_ED25519 {
        Ok(OkpProfile { alg: Some(-19i64), coordinate_len: ED25519_PUBLIC_KEY_BYTES })
    } else if curve == CURVE_X25519 {
        Ok(OkpProfile { alg: None, coordinate_len: X25519_PUBLIC_KEY_BYTES })
    } else {
        Err(CoseError::UnsupportedAlgorithm)
    }
}

/// Select the OKP profile of an IANA curve.
pub fn okp_profile(curve: i64) -> (r: Result<OkpProfile, CoseError>)
    ensures
        r == spec_okp_profile(curve),
{
    if curve == CURVE_ED25519 {
        return Ok(OkpProfile { alg: Some(-19i64), coordinate_len: ED25519_PUBLIC_KEY_BYTES });
    }
    if curve == CURVE_X25519 {
        return Ok(OkpProfile { alg: None, coordinate_len: X25519_PUBLIC_KEY_BYTES });
    }
    Err(CoseError::UnsupportedAlgorithm)
}

/// The profile of a supported key.
#[derive(Clone, Copy, Debug, PartialEq, Eq, Structural)]
pub enum KeyProfile {
    /// Octet key pair.
    Okp(OkpProfile),
    /// Elliptic curve with x and y coordinates.
    Ec2(Ec2Profile),
    /// Algorithm key pair.
    Akp(AkpProfile),
}

/// Every EC2 profile of a primitive names that primitive's curve.
pub proof fn lemma_ec2_profile_curve_roundtrip(algorithm: Algorithm)
    ensures
        spec_ec2_profile(algorithm) matches Ok(profile) ==> spec_algorithm_for_ec2_profile(profile)
            == Ok::<Algorithm, CoseError>(algorithm) && spec_ec2_profile_from_curve(profile.curve)
            == Ok::<Ec2Profile, CoseError>(profile),
{
}

/// Every AKP profile is recovered from the algorithm label bound into its
/// keys.
pub proof fn lemma_akp_label_roundtrip(algorithm: Algorithm)
    ensures
        spec_akp_algorithm_label(algorithm) matches Ok(label) ==> spec_akp_profile_from_cose_algorithm(
            label,
        ) == spec_akp_profile(algorithm) && spec_akp_profile(algorithm) is Ok,
{
}

} // verus!
