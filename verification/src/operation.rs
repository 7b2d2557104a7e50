//! The enumerated values of the protobuf operation contract and their
//! mapping to and from the native selectors, with the checks a response is
//! held to.
//!
//! A protobuf enum field carries either a value the schema names or an
//! unknown number; here a field is an `Option` of the schema's values, with
//! `None` for an unknown number.

use vstd::prelude::*;

use crate::algorithm::primitive::Algorithm;
use crate::algorithm::signature::CoseSignatureAlgorithm;
use crate::boundary::{CoseErrorReason, CoseWireError};
use crate::encrypt::types::{CoseContentEncryptionAlgorithm, CoseMlKemAlgorithm, CoseMlKemMode};
use crate::key::encoding::CoseEc2PointEncoding;

verus! {

/// Signature algorithm values of the contract.
#[derive(Clone, Copy, Debug, PartialEq, Eq, Structural)]
pub enum WireSignatureAlgorithm {
    Unspecified,
    Ed25519,
    EcdsaP256Sha256,
    EcdsaP384Sha384,
    EcdsaP521Sha512,
    EcdsaSecp256k1Sha256,
    MlDsa44,
    MlDsa65,
    MlDsa87,
    Es256,
    Esp256,
    Esp384,
    Esp512,
}

/// Content-encryption algorithm values of the contract.
#[derive(Clone, Copy, Debug, PartialEq, Eq, Structural)]
pub enum WireContentEncryptionAlgorithm {
    Unspecified,
    Aes128Gcm,
    Aes192Gcm,
    Aes256Gcm,
}

/// KEM algorithm values of the contract.
#[derive(Clone, Copy, Debug, PartialEq, Eq, Structural)]
pub enum WireKemAlgorithm {
    Unspecified,
    MlKem512,
    MlKem768,
    MlKem1024,
    XWing768,
}

/// ML-KEM mode values of the contract.
#[derive(Clone, Copy, Debug, PartialEq, Eq, Structural)]
pub enum WireMlKemMode {
    Unspecified,
    Direct,
    KeyWrap,
}

/// EC2 point-encoding values of the contract.
#[derive(Clone, Copy, Debug, PartialEq, Eq, Structural)]
pub enum WireEc2PointEncoding {
    Unspecified,
    Compressed,
    FullCoordinates,
}

/// Key-agreement algorithm values of the contract.
#[derive(Clone, Copy, Debug, PartialEq, Eq, Structural)]
pub enum WireKeyAgreementAlgorithm {
    Unspecified,
    X25519,
}

/// The operations of the contract; a request names one and a result
/// answers one.
#[derive(Clone, Copy, Debug, PartialEq, Eq, Structural)]
pub enum CoseOperationKind {
    Sign1Create,
    Sign1CreateDetached,
    Sign1Verify,
    Sign1VerifyDetached,
    KeyFromPublicBytes,
    KeyFromPrivateBytes,
    KeyParse,
    KeyToPublicBytes,
    KeyToPrivateBytes,
    KeyDerivePublicKid,
    KeyToMultikey,
    MultikeyToCoseKey,
    MlKemEncryptDirect,
    MlKemEncryptKeyWrap,
    MlKemDecrypt,
}

/// The error of a request parameter that has no accepted value.
pub open spec fn spec_invalid_parameter(error: CoseWireError) -> bool {
    error.spec_branch() == crate::boundary::CoseWireErrorBranch::Primitive && error.spec_reason()
        == CoseErrorReason::CommonInvalidParameter
}

fn invalid_parameter() -> (r: CoseWireError)
    ensures
        spec_invalid_parameter(r),
{
    CoseWireError::primitive_internal(CoseErrorReason::CommonInvalidParameter)
}

/// The native registration of a signature algorithm value; the legacy
/// curve-named ECDSA values select the fully specified registrations.
pub open spec fn spec_signature_algorithm_from_proto(value: Option<WireSignatureAlgorithm>) -> Option<
    CoseSignatureAlgorithm,
> {
    match value {
        Some(WireSignatureAlgorithm::Ed25519) => Some(CoseSignatureAlgorithm::Ed25519),
        Some(WireSignatureAlgorithm::EcdsaP256Sha256) | Some(WireSignatureAlgorithm::Esp256) => Some(
            CoseSignatureAlgorithm::Esp256,
        ),
        Some(WireSignatureAlgorithm::Es256) => Some(CoseSignatureAlgorithm::Es256),
        Some(WireSignatureAlgorithm::EcdsaP384Sha384) | Some(WireSignatureAlgorithm::Esp384) => Some(
            CoseSignatureAlgorithm::Esp384,
        ),
        Some(WireSignatureAlgorithm::EcdsaP521Sha512) | Some(WireSignatureAlgorithm::Esp512) => Some(
            CoseSignatureAlgorithm::Esp512,
        ),
        Some(WireSignatureAlgorithm::EcdsaSecp256k1Sha256) => Some(CoseSignatureAlgorithm::Es256K),
        Some(WireSignatureAlgorithm::MlDsa44) => Some(CoseSignatureAlgorithm::MlDsa44),
        Some(WireSignatureAlgorithm::MlDsa65) => Some(CoseSignatureAlgorithm::MlDsa65),
        Some(WireSignatureAlgorithm::MlDsa87) => Some(CoseSignatureAlgorithm::MlDsa87),
        _ => None,
    }
}

/// Read a signature algorithm value; an unknown or unspecified value is an
/// invalid parameter.
pub fn signature_algorithm_from_proto(value: Option<WireSignatureAlgorithm>) -> (r: Result<
    CoseSignatureAlgorithm,
    CoseWireError,
>)
    ensures
        match r {
            Ok(algorithm) => spec_signature_algorithm_from_proto(value) == Some(algorithm),
            Err(error) => spec_signature_algorithm_from_proto(value) is None && spec_invalid_parameter(error),
        },
{
    let algorithm = match value {
        Some(algorithm) => algorithm,
        None => return Err(invalid_parameter()),
    };
    match algorithm {
        WireSignatureAlgorithm::Ed25519 => Ok(CoseSignatureAlgorithm::Ed25519),
        WireSignatureAlgorithm::EcdsaP256Sha256 | WireSignatureAlgorithm::Esp256 => Ok(
            CoseSignatureAlgorithm::Esp256,
        ),
        WireSignatureAlgorithm::Es256 => Ok(CoseSignatureAlgorithm::Es256),
        WireSignatureAlgorithm::EcdsaP384Sha384 | WireSignatureAlgorithm::Esp384 => Ok(
            CoseSignatureAlgorithm::Esp384,
        ),
        WireSignatureAlgorithm::EcdsaP521Sha512 | WireSignatureAlgorithm::Esp512 => Ok(
            CoseSignatureAlgorithm::Esp512,
        ),
        WireSignatureAlgorithm::EcdsaSecp256k1Sha256 => Ok(CoseSignatureAlgorithm::Es256K),
        WireSignatureAlgorithm::MlDsa44 => Ok(CoseSignatureAlgorithm::MlDsa44),
        WireSignatureAlgorithm::MlDsa65 => Ok(CoseSignatureAlgorithm::MlDsa65),
        WireSignatureAlgorithm::MlDsa87 => Ok(CoseSignatureAlgorithm::MlDsa87),
        WireSignatureAlgorithm::Unspecified => Err(invalid_parameter()),
    }
}

/// The exact value of a native registration.
pub open spec fn spec_signature_algorithm_to_proto(algorithm: CoseSignatureAlgorithm) -> WireSignatureAlgorithm {
    match algorithm {
        CoseSignatureAlgorithm::Ed25519 => WireSignatureAlgorithm::Ed25519,
        CoseSignatureAlgorithm::Es256 => WireSignatureAlgorithm::Es256,
        CoseSignatureAlgorithm::Esp256 => WireSignatureAlgorithm::Esp256,
        CoseSignatureAlgorithm::Esp384 => WireSignatureAlgorithm::Esp384,
        CoseSignatureAlgorithm::Esp512 => WireSignatureAlgorithm::Esp512,
        CoseSignatureAlgorithm::Es256K => WireSignatureAlgorithm::EcdsaSecp256k1Sha256,
        CoseSignatureAlgorithm::MlDsa44 => WireSignatureAlgorithm::MlDsa44,
        CoseSignatureAlgorithm::MlDsa65 => WireSignatureAlgorithm::MlDsa65,
        CoseSignatureAlgorithm::MlDsa87 => WireSignatureAlgorithm::MlDsa87,
    }
}

/// The exact value of a native registration.
pub fn signature_algorithm_to_proto(algorithm: CoseSignatureAlgorithm) -> (r: WireSignatureAlgorithm)
    ensures
        r == spec_signature_algorithm_to_proto(algorithm),
{
    match algorithm {
        CoseSignatureAlgorithm::Ed25519 => WireSignatureAlgorithm::Ed25519,
        CoseSignatureAlgorithm::Es256 => WireSignatureAlgorithm::Es256,
        CoseSignatureAlgorithm::Esp256 => WireSignatureAlgorithm::Esp256,
        CoseSignatureAlgorithm::Esp384 => WireSignatureAlgorithm::Esp384,
        CoseSignatureAlgorithm::Esp512 => WireSignatureAlgorithm::Esp512,
        CoseSignatureAlgorithm::Es256K => WireSignatureAlgorithm::EcdsaSecp256k1Sha256,
        CoseSignatureAlgorithm::MlDsa44 => WireSignatureAlgorithm::MlDsa44,
        CoseSignatureAlgorithm::MlDsa65 => WireSignatureAlgorithm::MlDsa65,
        CoseSignatureAlgorithm::MlDsa87 => WireSignatureAlgorithm::MlDsa87,
    }
}

/// The curve-named value of a native registration, as earlier clients read
/// it: both P-256 registrations are ECDSA P-256 with SHA-256.
pub open spec fn spec_legacy_signature_algorithm_to_proto(algorithm: CoseSignatureAlgorithm) -> WireSignatureAlgorithm {
    match algorithm {
        CoseSignatureAlgorithm::Ed25519 => WireSignatureAlgorithm::Ed25519,
        CoseSignatureAlgorithm::Es256 | CoseSignatureAlgorithm::Esp256 => WireSignatureAlgorithm::EcdsaP256Sha256,
        CoseSignatureAlgorithm::Esp384 => WireSignatureAlgorithm::EcdsaP384Sha384,
        CoseSignatureAlgorithm::Esp512 => WireSignatureAlgorithm::EcdsaP521Sha512,
        CoseSignatureAlgorithm::Es256K => WireSignatureAlgorithm::EcdsaSecp256k1Sha256,
        CoseSignatureAlgorithm::MlDsa44 => WireSignatureAlgorithm::MlDsa44,
        CoseSignatureAlgorithm::MlDsa65 => WireSignatureAlgorithm::MlDsa65,
        CoseSignatureAlgorithm::MlDsa87 => WireSignatureAlgorithm::MlDsa87,
    }
}

/// The curve-named value of a native registration.
pub fn legacy_signature_algorithm_to_proto(algorithm: CoseSignatureAlgorithm) -> (r: WireSignatureAlgorithm)
    ensures
        r == spec_legacy_signature_algorithm_to_proto(algorithm),
{
    match algorithm {
        CoseSignatureAlgorithm::Ed25519 => WireSignatureAlgorithm::Ed25519,
        CoseSignatureAlgorithm::Es256 | CoseSignatureAlgorithm::Esp256 => WireSignatureAlgorithm::EcdsaP256Sha256,
        CoseSignatureAlgorithm::Esp384 => WireSignatureAlgorithm::EcdsaP384Sha384,
        CoseSignatureAlgorithm::Esp512 => WireSignatureAlgorithm::EcdsaP521Sha512,
        CoseSignatureAlgorithm::Es256K => WireSignatureAlgorithm::EcdsaSecp256k1Sha256,
        CoseSignatureAlgorithm::MlDsa44 => WireSignatureAlgorithm::MlDsa44,
        CoseSignatureAlgorithm::MlDsa65 => WireSignatureAlgorithm::MlDsa65,
        CoseSignatureAlgorithm::MlDsa87 => WireSignatureAlgorithm::MlDsa87,
    }
}

/// The native content algorithm of a value.
pub open spec fn spec_content_algorithm_from_proto(value: Option<WireContentEncryptionAlgorithm>) -> Option<
    CoseContentEncryptionAlgorithm,
> {
    match value {
        Some(WireContentEncryptionAlgorithm::Aes128Gcm) => Some(CoseContentEncryptionAlgorithm::Aes128Gcm),
        Some(WireContentEncryptionAlgorithm::Aes192Gcm) => Some(CoseContentEncryptionAlgorithm::Aes192Gcm),
        Some(WireContentEncryptionAlgorithm::Aes256Gcm) => Some(CoseContentEncryptionAlgorithm::Aes256Gcm),
        _ => None,
    }
}

/// Read a content algorithm value; an unknown or unspecified value is an
/// invalid parameter.
pub fn content_algorithm_from_proto(value: Option<WireContentEncryptionAlgorithm>) -> (r: Result<
    CoseContentEncryptionAlgorithm,
    CoseWireError,
>)
    ensures
        match r {
            Ok(algorithm) => spec_content_algorithm_from_proto(value) == Some(algorithm),
            Err(error) => spec_content_algorithm_from_proto(value) is None && spec_invalid_parameter(error),
        },
{
    match value {
        Some(WireContentEncryptionAlgorithm::Aes128Gcm) => Ok(CoseContentEncryptionAlgorithm::Aes128Gcm),
        Some(WireContentEncryptionAlgorithm::Aes192Gcm) => Ok(CoseContentEncryptionAlgorithm::Aes192Gcm),
        Some(WireContentEncryptionAlgorithm::Aes256Gcm) => Ok(CoseContentEncryptionAlgorithm::Aes256Gcm),
        _ => Err(invalid_parameter()),
    }
}

/// The value of a native content algorithm.
pub open spec fn spec_content_algorithm_to_proto(algorithm: CoseContentEncryptionAlgorithm) -> WireContentEncryptionAlgorithm {
    match algorithm {
        CoseContentEncryptionAlgorithm::Aes128Gcm => WireContentEncryptionAlgorithm::Aes128Gcm,
        CoseContentEncryptionAlgorithm::Aes192Gcm => WireContentEncryptionAlgorithm::Aes192Gcm,
        CoseContentEncryptionAlgorithm::Aes256Gcm => WireContentEncryptionAlgorithm::Aes256Gcm,
    }
}

/// The value of a native content algorithm.
pub fn content_algorithm_to_proto(algorithm: CoseContentEncryptionAlgorithm) -> (r: WireContentEncryptionAlgorithm)
    ensures
        r == spec_content_algorithm_to_proto(algorithm),
{
    match algorithm {
        CoseContentEncryptionAlgorithm::Aes128Gcm => WireContentEncryptionAlgorithm::Aes128Gcm,
        CoseContentEncryptionAlgorithm::Aes192Gcm => WireContentEncryptionAlgorithm::Aes192Gcm,
        CoseContentEncryptionAlgorithm::Aes256Gcm => WireContentEncryptionAlgorithm::Aes256Gcm,
    }
}

/// The primitive of a KEM value.
pub open spec fn spec_kem_algorithm_from_proto(value: Option<WireKemAlgorithm>) -> Option<Algorithm> {
    match value {
        Some(WireKemAlgorithm::MlKem512) => Some(Algorithm::MlKem512),
        Some(WireKemAlgorithm::MlKem768) => Some(Algorithm::MlKem768),
        Some(WireKemAlgorithm::MlKem1024) => Some(Algorithm::MlKem1024),
        Some(WireKemAlgorithm::XWing768) => Some(Algorithm::XWing768),
        _ => None,
    }
}

/// Read a KEM value as a key primitive; an unknown or unspecified value is
/// an invalid parameter.
pub fn kem_algorithm_from_proto(value: Option<WireKemAlgorithm>) -> (r: Result<Algorithm, CoseWireError>)
    ensures
        match r {
            Ok(algorithm) => spec_kem_algorithm_from_proto(value) == Some(algorithm),
            Err(error) => spec_kem_algorithm_from_proto(value) is None && spec_invalid_parameter(error),
        },
{
    match value {
        Some(WireKemAlgorithm::MlKem512) => Ok(Algorithm::MlKem512),
        Some(WireKemAlgorithm::MlKem768) => Ok(Algorithm::MlKem768),
        Some(WireKemAlgorithm::MlKem1024) => Ok(Algorithm::MlKem1024),
        Some(WireKemAlgorithm::XWing768) => Ok(Algorithm::XWing768),
        _ => Err(invalid_parameter()),
    }
}

/// The ML-KEM parameter set of a KEM value.
pub open spec fn spec_ml_kem_algorithm_from_proto(value: Option<WireKemAlgorithm>) -> Option<CoseMlKemAlgorithm> {
    match value {
        Some(WireKemAlgorithm::MlKem512) => Some(CoseMlKemAlgorithm::MlKem512),
        Some(WireKemAlgorithm::MlKem768) => Some(CoseMlKemAlgorithm::MlKem768),
        Some(WireKemAlgorithm::MlKem1024) => Some(CoseMlKemAlgorithm::MlKem1024),
        _ => None,
    }
}

/// Read a KEM value as an ML-KEM parameter set: an unknown or unspecified
/// value is an invalid parameter, and a KEM outside ML-KEM an unsupported
/// algorithm.
pub fn ml_kem_algorithm_from_proto(value: Option<WireKemAlgorithm>) -> (r: Result<
    CoseMlKemAlgorithm,
    CoseWireError,
>)
    ensures
        match r {
            Ok(kem) => spec_ml_kem_algorithm_from_proto(value) == Some(kem),
            Err(error) => spec_ml_kem_algorithm_from_proto(value) is None && if value == Some(
                WireKemAlgorithm::XWing768,
            ) {
                error.spec_branch() == crate::boundary::CoseWireErrorBranch::Provider && error.spec_reason()
                    == CoseErrorReason::CommonUnsupportedAlgorithm
            } else {
                spec_invalid_parameter(error)
            },
        },
{
    match value {
        Some(WireKemAlgorithm::MlKem512) => Ok(CoseMlKemAlgorithm::MlKem512),
        Some(WireKemAlgorithm::MlKem768) => Ok(CoseMlKemAlgorithm::MlKem768),
        Some(WireKemAlgorithm::MlKem1024) => Ok(CoseMlKemAlgorithm::MlKem1024),
        Some(WireKemAlgorithm::XWing768) => Err(
            CoseWireError::provider_internal(CoseErrorReason::CommonUnsupportedAlgorithm),
        ),
        _ => Err(invalid_parameter()),
    }
}

/// The value of a native ML-KEM parameter set.
pub open spec fn spec_kem_algorithm_to_proto(kem: CoseMlKemAlgorithm) -> WireKemAlgorithm {
    match kem {
        CoseMlKemAlgorithm::MlKem512 => WireKemAlgorithm::MlKem512,
        CoseMlKemAlgorithm::MlKem768 => WireKemAlgorithm::MlKem768,
        CoseMlKemAlgorithm::MlKem1024 => WireKemAlgorithm::MlKem1024,
    }
}

/// The value of a native ML-KEM parameter set.
pub fn kem_algorithm_to_proto(kem: CoseMlKemAlgorithm) -> (r: WireKemAlgorithm)
    ensures
        r == spec_kem_algorithm_to_proto(kem),
{
    match kem {
        CoseMlKemAlgorithm::MlKem512 => WireKemAlgorithm::MlKem512,
        CoseMlKemAlgorithm::MlKem768 => WireKemAlgorithm::MlKem768,
        CoseMlKemAlgorithm::MlKem1024 => WireKemAlgorithm::MlKem1024,
    }
}

/// The value of a native ML-KEM mode.
pub open spec fn spec_mode_to_proto(mode: CoseMlKemMode) -> WireMlKemMode {
    match mode {
        CoseMlKemMode::Direct => WireMlKemMode::Direct,
        CoseMlKemMode::KeyWrap => WireMlKemMode::KeyWrap,
    }
}

/// The value of a native ML-KEM mode.
pub fn mode_to_proto(mode: CoseMlKemMode) -> (r: WireMlKemMode)
    ensures
        r == spec_mode_to_proto(mode),
{
    match mode {
        CoseMlKemMode::Direct => WireMlKemMode::Direct,
        CoseMlKemMode::KeyWrap => WireMlKemMode::KeyWrap,
    }
}

/// The primitive of a key-agreement value.
pub fn key_agreement_algorithm_from_proto(value: Option<WireKeyAgreementAlgorithm>) -> (r: Result<
    Algorithm,
    CoseWireError,
>)
    ensures
        match r {
            Ok(algorithm) => value == Some(WireKeyAgreementAlgorithm::X25519) && algorithm == Algorithm::X25519,
            Err(error) => value != Some(WireKeyAgreementAlgorithm::X25519) && spec_invalid_parameter(error),
        },
{
    match value {
        Some(WireKeyAgreementAlgorithm::X25519) => Ok(Algorithm::X25519),
        _ => Err(invalid_parameter()),
    }
}

/// The algorithm a key request names.
pub enum KeyAlgorithmInput {
    /// An exact signature registration.
    Signature(CoseSignatureAlgorithm),
    /// A primitive.
    Crypto(Algorithm),
}

/// Whether an EC2 point encoding can be asked for: only for EC algorithms.
pub open spec fn spec_supports_ec2_point_encoding(algorithm: KeyAlgorithmInput) -> bool {
    match algorithm {
        KeyAlgorithmInput::Signature(registration) => registration == CoseSignatureAlgorithm::Es256
            || registration == CoseSignatureAlgorithm::Esp256 || registration == CoseSignatureAlgorithm::Esp384
            || registration == CoseSignatureAlgorithm::Esp512 || registration == CoseSignatureAlgorithm::Es256K,
        KeyAlgorithmInput::Crypto(primitive) => primitive == Algorithm::P256 || primitive == Algorithm::P384
            || primitive == Algorithm::P521 || primitive == Algorithm::Secp256k1,
    }
}

impl KeyAlgorithmInput {
    /// Whether an EC2 point encoding can be asked for.
    pub fn supports_ec2_point_encoding(&self) -> (r: bool)
        ensures
            r == spec_supports_ec2_point_encoding(*self),
    {
        match self {
            KeyAlgorithmInput::Signature(registration) => match registration {
                CoseSignatureAlgorithm::Es256 | CoseSignatureAlgorithm::Esp256 | CoseSignatureAlgorithm::Esp384
                | CoseSignatureAlgorithm::Esp512 | CoseSignatureAlgorithm::Es256K => true,
                _ => false,
            },
            KeyAlgorithmInput::Crypto(primitive) => match primitive {
                Algorithm::P256 | Algorithm::P384 | Algorithm::P521 | Algorithm::Secp256k1 => true,
                _ => false,
            },
        }
    }
}

/// Read a point-encoding value: unspecified is no choice; an unknown value
/// is an invalid parameter.
pub fn ec2_point_encoding_from_proto(value: Option<WireEc2PointEncoding>) -> (r: Result<
    Option<CoseEc2PointEncoding>,
    CoseWireError,
>)
    ensures
        match r {
            Ok(encoding) => match value {
                Some(WireEc2PointEncoding::Unspecified) => encoding is None,
                Some(WireEc2PointEncoding::Compressed) => encoding == Some(CoseEc2PointEncoding::Compressed),
                Some(WireEc2PointEncoding::FullCoordinates) => encoding == Some(
                    CoseEc2PointEncoding::FullCoordinates,
                ),
                None => false,
            },
            Err(error) => value is None && spec_invalid_parameter(error),
        },
{
    match value {
        Some(WireEc2PointEncoding::Unspecified) => Ok(None),
        Some(WireEc2PointEncoding::Compressed) => Ok(Some(CoseEc2PointEncoding::Compressed)),
        Some(WireEc2PointEncoding::FullCoordinates) => Ok(Some(CoseEc2PointEncoding::FullCoordinates)),
        None => Err(invalid_parameter()),
    }
}

/// A point encoding is only accepted for an EC algorithm.
pub fn validate_ec2_point_encoding(algorithm: &KeyAlgorithmInput, encoding: Option<CoseEc2PointEncoding>) -> (r:
    Result<Option<CoseEc2PointEncoding>, CoseWireError>)
    ensures
        match r {
            Ok(accepted) => accepted == encoding && (encoding is Some ==> spec_supports_ec2_point_encoding(
                *algorithm,
            )),
            Err(error) => encoding is Some && !spec_supports_ec2_point_encoding(*algorithm)
                && spec_invalid_parameter(error),
        },
{
    if encoding.is_some() && !algorithm.supports_ec2_point_encoding() {
        return Err(invalid_parameter());
    }
    Ok(encoding)
}

/// The signature algorithm values a verification result may carry: the
/// curve-named values and the ML-DSA ones.
pub open spec fn spec_signature_algorithm_is_valid(value: Option<WireSignatureAlgorithm>) -> bool {
    match value {
        Some(WireSignatureAlgorithm::Ed25519) | Some(WireSignatureAlgorithm::EcdsaP256Sha256) | Some(
            WireSignatureAlgorithm::EcdsaP384Sha384,
        ) | Some(WireSignatureAlgorithm::EcdsaP521Sha512) | Some(
            WireSignatureAlgorithm::EcdsaSecp256k1Sha256,
        ) | Some(WireSignatureAlgorithm::MlDsa44) | Some(WireSignatureAlgorithm::MlDsa65) | Some(
            WireSignatureAlgorithm::MlDsa87,
        ) => true,
        _ => false,
    }
}

/// Whether a verification result's algorithm value is one it may carry.
pub fn signature_algorithm_is_valid(value: Option<WireSignatureAlgorithm>) -> (r: bool)
    ensures
        r == spec_signature_algorithm_is_valid(value),
{
    match value {
        Some(WireSignatureAlgorithm::Ed25519) | Some(WireSignatureAlgorithm::EcdsaP256Sha256) | Some(
            WireSignatureAlgorithm::EcdsaP384Sha384,
        ) | Some(WireSignatureAlgorithm::EcdsaP521Sha512) | Some(
            WireSignatureAlgorithm::EcdsaSecp256k1Sha256,
        ) | Some(WireSignatureAlgorithm::MlDsa44) | Some(WireSignatureAlgorithm::MlDsa65) | Some(
            WireSignatureAlgorithm::MlDsa87,
        ) => true,
        _ => false,
    }
}

/// Whether a decryption result's metadata names a supported content
/// algorithm, ML-KEM parameter set and mode.
pub open spec fn spec_decrypt_metadata_is_valid(
    content_algorithm: Option<WireContentEncryptionAlgorithm>,
    kem_algorithm: Option<WireKemAlgorithm>,
    mode: Option<WireMlKemMode>,
) -> bool {
    &&& spec_content_algorithm_from_proto(content_algorithm) is Some
    &&& spec_ml_kem_algorithm_from_proto(kem_algorithm) is Some
    &&& (mode == Some(WireMlKemMode::Direct) || mode == Some(WireMlKemMode::KeyWrap))
}

/// Whether a decryption result's metadata is valid.
pub fn decrypt_metadata_is_valid(
    content_algorithm: Option<WireContentEncryptionAlgorithm>,
    kem_algorithm: Option<WireKemAlgorithm>,
    mode: Option<WireMlKemMode>,
) -> (r: bool)
    ensures
        r == spec_decrypt_metadata_is_valid(content_algorithm, kem_algorithm, mode),
{
    let content = match content_algorithm {
        Some(WireContentEncryptionAlgorithm::Aes128Gcm) | Some(WireContentEncryptionAlgorithm::Aes192Gcm) | Some(
            WireContentEncryptionAlgorithm::Aes256Gcm,
        ) => true,
        _ => false,
    };
    let kem = match kem_algorithm {
        Some(WireKemAlgorithm::MlKem512) | Some(WireKemAlgorithm::MlKem768) | Some(WireKemAlgorithm::MlKem1024) => true,
        _ => false,
    };
    let mode = match mode {
        Some(WireMlKemMode::Direct) | Some(WireMlKemMode::KeyWrap) => true,
        _ => false,
    };
    content && kem && mode
}

/// Whether a result answers a request: both name the same operation.
pub fn result_matches_request(request: Option<CoseOperationKind>, result: Option<CoseOperationKind>) -> (r: bool)
    ensures
        r == (request is Some && request == result),
{
    match (request, result) {
        (Some(asked), Some(answered)) => asked == answered,
        _ => false,
    }
}

/// The error of a response that breaks the contract.
pub fn malformed_response_error() -> (r: CoseWireError)
    ensures
        r.spec_branch() == crate::boundary::CoseWireErrorBranch::Backend,
        r.spec_reason() == CoseErrorReason::BackendInternal,
{
    CoseWireError::backend_internal(CoseErrorReason::BackendInternal)
}

/// The error of a response that could not be read: a size limit is kept as
/// such, and anything else is a malformed response.
pub fn response_boundary_error(error: CoseWireError) -> (r: CoseWireError)
    ensures
        r.spec_branch() == crate::boundary::CoseWireErrorBranch::Backend,
        r.spec_reason() == (if error.spec_reason() == CoseErrorReason::CommonResourceLimitExceeded {
            CoseErrorReason::CommonResourceLimitExceeded
        } else {
            CoseErrorReason::BackendInternal
        }),
{
    if error.reason() == CoseErrorReason::CommonResourceLimitExceeded {
        CoseWireError::backend_internal(CoseErrorReason::CommonResourceLimitExceeded)
    } else {
        malformed_response_error()
    }
}

/// Every exact registration survives the trip through its contract value.
pub proof fn lemma_signature_algorithm_wire_roundtrip(algorithm: CoseSignatureAlgorithm)
    ensures
        spec_signature_algorithm_from_proto(Some(spec_signature_algorithm_to_proto(algorithm))) == Some(algorithm),
{
}

/// The curve-named value of every registration is one a verification result
/// may carry, and it reads back as the registration except that ES256
/// reads back as ESP256.
pub proof fn lemma_legacy_signature_value_is_valid(algorithm: CoseSignatureAlgorithm)
    ensures
        spec_signature_algorithm_is_valid(Some(spec_legacy_signature_algorithm_to_proto(algorithm))),
        spec_signature_algorithm_from_proto(Some(spec_legacy_signature_algorithm_to_proto(algorithm)))
            == Some(if algorithm == CoseSignatureAlgorithm::Es256 {
            CoseSignatureAlgorithm::Esp256
        } else {
            algorithm
        }),
{
}

/// The metadata of every decryption result is valid, and each value reads
/// back as what it was made from.
pub proof fn lemma_decrypt_metadata_roundtrip(
    content_algorithm: CoseContentEncryptionAlgorithm,
    kem: CoseMlKemAlgorithm,
    mode: CoseMlKemMode,
)
    ensures
        spec_decrypt_metadata_is_valid(
            Some(spec_content_algorithm_to_proto(content_algorithm)),
            Some(spec_kem_algorithm_to_proto(kem)),
            Some(spec_mode_to_proto(mode)),
        ),
        spec_content_algorithm_from_proto(Some(spec_content_algorithm_to_proto(content_algorithm)))
            == Some(content_algorithm),
        spec_ml_kem_algorithm_from_proto(Some(spec_kem_algorithm_to_proto(kem))) == Some(kem),
{
}

} // verus!
