//! Exact COSE signature algorithm registrations.

use vstd::prelude::*;

use super::label::RegisteredLabelWithPrivate;
use super::primitive::Algorithm;
use crate::error::CoseError;

verus! {

/// Exact signature algorithm identifier carried by a COSE header or COSE_Key.
///
/// This type is deliberately distinct from [`Algorithm`]: COSE can register
/// more than one identifier for the same primitive. Both ES256 (`-7`) and
/// ESP256 (`-9`) use the P-256/SHA-256 backend but remain distinct protocol
/// identities and are never rewritten into one another.
#[non_exhaustive]
#[derive(Clone, Copy, Debug, Eq, Hash, PartialEq, Structural)]
pub enum CoseSignatureAlgorithm {
    /// Fully specified Ed25519 (`-19`).
    Ed25519,
    /// ECDSA with SHA-256 (`-7`), restricted by this profile to P-256.
    Es256,
    /// Fully specified ECDSA with P-256 and SHA-256 (`-9`).
    Esp256,
    /// Fully specified ECDSA with P-384 and SHA-384 (`-51`).
    Esp384,
    /// Fully specified ECDSA with P-521 and SHA-512 (`-52`).
    Esp512,
    /// ECDSA with secp256k1 and SHA-256 (`-47`).
    Es256K,
    /// ML-DSA-44 (`-48`).
    MlDsa44,
    /// ML-DSA-65 (`-49`).
    MlDsa65,
    /// ML-DSA-87 (`-50`).
    MlDsa87,
}

/// The IANA COSE Algorithms value of each registration.
pub open spec fn spec_identifier(algorithm: CoseSignatureAlgorithm) -> i64 {
    match algorithm {
        CoseSignatureAlgorithm::Ed25519 => -19i64,
        CoseSignatureAlgorithm::Es256 => -7i64,
        CoseSignatureAlgorithm::Esp256 => -9i64,
        CoseSignatureAlgorithm::Esp384 => -51i64,
        CoseSignatureAlgorithm::Esp512 => -52i64,
        CoseSignatureAlgorithm::Es256K => -47i64,
        CoseSignatureAlgorithm::MlDsa44 => -48i64,
        CoseSignatureAlgorithm::MlDsa65 => -49i64,
        CoseSignatureAlgorithm::MlDsa87 => -50i64,
    }
}

/// The primitive that executes each registration.
pub open spec fn spec_crypto_algorithm(algorithm: CoseSignatureAlgorithm) -> Algorithm {
    match algorithm {
        CoseSignatureAlgorithm::Ed25519 => Algorithm::Ed25519,
        CoseSignatureAlgorithm::Es256 | CoseSignatureAlgorithm::Esp256 => Algorithm::P256,
        CoseSignatureAlgorithm::Esp384 => Algorithm::P384,
        CoseSignatureAlgorithm::Esp512 => Algorithm::P521,
        CoseSignatureAlgorithm::Es256K => Algorithm::Secp256k1,
        CoseSignatureAlgorithm::MlDsa44 => Algorithm::MlDsa44,
        CoseSignatureAlgorithm::MlDsa65 => Algorithm::MlDsa65,
        CoseSignatureAlgorithm::MlDsa87 => Algorithm::MlDsa87,
    }
}

/// The registration with identifier `identifier`, if it is supported.
pub open spec fn spec_from_identifier(identifier: i64) -> Result<CoseSignatureAlgorithm, CoseError> {
    if identifier == -19 {
        Ok(CoseSignatureAlgorithm::Ed25519)
    } else if identifier == -7 {
        Ok(CoseSignatureAlgorithm::Es256)
    } else if identifier == -9 {
        Ok(CoseSignatureAlgorithm::Esp256)
    } else if identifier == -51 {
        Ok(CoseSignatureAlgorithm::Esp384)
    } else if identifier == -52 {
        Ok(CoseSignatureAlgorithm::Esp512)
    } else if identifier == -47 {
        Ok(CoseSignatureAlgorithm::Es256K)
    } else if identifier == -48 {
        Ok(CoseSignatureAlgorithm::MlDsa44)
    } else if identifier == -49 {
        Ok(CoseSignatureAlgorithm::MlDsa65)
    } else if identifier == -50 {
        Ok(CoseSignatureAlgorithm::MlDsa87)
    } else {
        Err(CoseError::UnsupportedAlgorithm)
    }
}

/// The default registration of a signature primitive: the fully specified
/// identifier where one exists.
pub open spec fn spec_from_crypto_algorithm(algorithm: Algorithm) -> Result<
    CoseSignatureAlgorithm,
    CoseError,
> {
    match algorithm {
        Algorithm::Ed25519 => Ok(CoseSignatureAlgorithm::Ed25519),
        Algorithm::P256 => Ok(CoseSignatureAlgorithm::Esp256),
        Algorithm::P384 => Ok(CoseSignatureAlgorithm::Esp384),
        Algorithm::P521 => Ok(CoseSignatureAlgorithm::Esp512),
        Algorithm::Secp256k1 => Ok(CoseSignatureAlgorithm::Es256K),
        Algorithm::MlDsa44 => Ok(CoseSignatureAlgorithm::MlDsa44),
        Algorithm::MlDsa65 => Ok(CoseSignatureAlgorithm::MlDsa65),
        Algorithm::MlDsa87 => Ok(CoseSignatureAlgorithm::MlDsa87),
        _ => Err(CoseError::UnsupportedAlgorithm),
    }
}

/// The registration named by a parsed COSE algorithm label.
pub open spec fn spec_from_registered(label: RegisteredLabelWithPrivate) -> Result<
    CoseSignatureAlgorithm,
    CoseError,
> {
    match label {
        RegisteredLabelWithPrivate::Assigned(value) => spec_from_identifier(value),
        RegisteredLabelWithPrivate::PrivateUse(value) => spec_from_identifier(value),
        RegisteredLabelWithPrivate::Text(_) => Err(CoseError::UnsupportedAlgorithm),
    }
}

impl CoseSignatureAlgorithm {
    /// Return the signed integer registered in the IANA COSE Algorithms table.
    pub fn identifier(self) -> (r: i64)
        ensures
            r == spec_identifier(self),
    {
        match self {
            Self::Ed25519 => -19i64,
            Self::Es256 => -7i64,
            Self::Esp256 => -9i64,
            Self::Esp384 => -51i64,
            Self::Esp512 => -52i64,
            Self::Es256K => -47i64,
            Self::MlDsa44 => -48i64,
            Self::MlDsa65 => -49i64,
            Self::MlDsa87 => -50i64,
        }
    }

    /// Return the cryptographic primitive used to execute this registration.
    pub fn crypto_algorithm(self) -> (r: Algorithm)
        ensures
            r == spec_crypto_algorithm(self),
    {
        match self {
            Self::Ed25519 => Algorithm::Ed25519,
            Self::Es256 | Self::Esp256 => Algorithm::P256,
            Self::Esp384 => Algorithm::P384,
            Self::Esp512 => Algorithm::P521,
            Self::Es256K => Algorithm::Secp256k1,
            Self::MlDsa44 => Algorithm::MlDsa44,
            Self::MlDsa65 => Algorithm::MlDsa65,
            Self::MlDsa87 => Algorithm::MlDsa87,
        }
    }

    /// Resolve a supported exact COSE signature identifier.
    ///
    /// Returns [`CoseError::UnsupportedAlgorithm`] for identifiers outside the
    /// supported signature profile.
    pub fn from_identifier(identifier: i64) -> (r: Result<Self, CoseError>)
        ensures
            r == spec_from_identifier(identifier),
    {
        match identifier {
            -19 => Ok(Self::Ed25519),
            -7 => Ok(Self::Es256),
            -9 => Ok(Self::Esp256),
            -51 => Ok(Self::Esp384),
            -52 => Ok(Self::Esp512),
            -47 => Ok(Self::Es256K),
            -48 => Ok(Self::MlDsa44),
            -49 => Ok(Self::MlDsa65),
            -50 => Ok(Self::MlDsa87),
            _ => Err(CoseError::UnsupportedAlgorithm),
        }
    }

    /// The default registration of a signature primitive.
    pub fn from_crypto_algorithm(algorithm: Algorithm) -> (r: Result<Self, CoseError>)
        ensures
            r == spec_from_crypto_algorithm(algorithm),
    {
        match algorithm {
            Algorithm::Ed25519 => Ok(Self::Ed25519),
            Algorithm::P256 => Ok(Self::Esp256),
            Algorithm::P384 => Ok(Self::Esp384),
            Algorithm::P521 => Ok(Self::Esp512),
            Algorithm::Secp256k1 => Ok(Self::Es256K),
            Algorithm::MlDsa44 => Ok(Self::MlDsa44),
            Algorithm::MlDsa65 => Ok(Self::MlDsa65),
            Algorithm::MlDsa87 => Ok(Self::MlDsa87),
            Algorithm::X25519
            | Algorithm::MlKem512
            | Algorithm::MlKem768
            | Algorithm::MlKem1024
            | Algorithm::SlhDsaSha2_128s
            | Algorithm::XWing768 => Err(CoseError::UnsupportedAlgorithm),
        }
    }

    /// The IANA-assigned algorithm value of this registration.
    pub fn to_iana(self) -> (r: i64)
        ensures
            r == spec_identifier(self),
    {
        self.identifier()
    }

    /// Resolve an IANA-assigned algorithm value.
    pub fn from_iana(algorithm: i64) -> (r: Result<Self, CoseError>)
        ensures
            r == spec_from_identifier(algorithm),
    {
        Self::from_identifier(algorithm)
    }

    /// Resolve a parsed COSE algorithm label.
    pub fn from_registered(algorithm: &RegisteredLabelWithPrivate) -> (r: Result<Self, CoseError>)
        ensures
            r == spec_from_registered(*algorithm),
    {
        match algorithm {
            RegisteredLabelWithPrivate::Assigned(assigned) => Self::from_iana(*assigned),
            RegisteredLabelWithPrivate::PrivateUse(identifier) => Self::from_identifier(*identifier),
            RegisteredLabelWithPrivate::Text(_) => Err(CoseError::UnsupportedAlgorithm),
        }
    }
}

/// Every registration is recovered from its identifier.
pub proof fn lemma_identifier_roundtrip(algorithm: CoseSignatureAlgorithm)
    ensures
        spec_from_identifier(spec_identifier(algorithm)) == Ok::<CoseSignatureAlgorithm, CoseError>(algorithm),
{
}

/// An identifier resolves only to the registration that carries it.
pub proof fn lemma_from_identifier_exact(identifier: i64)
    ensures
        spec_from_identifier(identifier) matches Ok(algorithm) ==> spec_identifier(algorithm)
            == identifier,
{
}

/// The default registration of a primitive executes that same primitive, and
/// exactly the signature primitives other than SLH-DSA have one.
pub proof fn lemma_from_crypto_algorithm_preserves_primitive(algorithm: Algorithm)
    ensures
        spec_from_crypto_algorithm(algorithm) matches Ok(registration) ==> spec_crypto_algorithm(
            registration,
        ) == algorithm,
        spec_from_crypto_algorithm(algorithm) is Ok <==> (algorithm == Algorithm::Ed25519
            || algorithm == Algorithm::P256 || algorithm == Algorithm::P384 || algorithm
            == Algorithm::P521 || algorithm == Algorithm::Secp256k1 || algorithm
            == Algorithm::MlDsa44 || algorithm == Algorithm::MlDsa65 || algorithm
            == Algorithm::MlDsa87),
{
}

/// Mapping a registration to its primitive and back yields the registration
/// itself for every registration except ES256, which shares P-256 with the
/// fully specified ESP256.
pub proof fn lemma_crypto_algorithm_roundtrip(algorithm: CoseSignatureAlgorithm)
    ensures
        algorithm != CoseSignatureAlgorithm::Es256 ==> spec_from_crypto_algorithm(
            spec_crypto_algorithm(algorithm),
        ) == Ok::<CoseSignatureAlgorithm, CoseError>(algorithm),
        algorithm == CoseSignatureAlgorithm::Es256 ==> spec_from_crypto_algorithm(
            spec_crypto_algorithm(algorithm),
        ) == Ok::<CoseSignatureAlgorithm, CoseError>(CoseSignatureAlgorithm::Esp256),
{
}

} // verus!
