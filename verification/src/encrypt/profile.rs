//! Parameter tables of the ReallyMe ML-KEM `COSE_Encrypt` profile.

use vstd::prelude::*;

use crate::algorithm::label::{RegisteredLabelWithPrivate, COSE_PRIVATE_USE_MAX};
use crate::algorithm::ml_kem::{
    REALLYME_COSE_ALG_ML_KEM_1024, REALLYME_COSE_ALG_ML_KEM_1024_A256KW,
    REALLYME_COSE_ALG_ML_KEM_512, REALLYME_COSE_ALG_ML_KEM_512_A128KW,
    REALLYME_COSE_ALG_ML_KEM_768, REALLYME_COSE_ALG_ML_KEM_768_A192KW,
};
use crate::error::CoseError;

use super::types::{
    CoseContentEncryptionAlgorithm, CoseMlKemAlgorithm, CoseMlKemMode, CoseMlKemProfile,
};

verus! {

/// Length of the raw FIPS 203 ML-KEM private seed `d || z`.
pub const ML_KEM_PRIVATE_SEED_LENGTH: usize = 64;
/// Length of the SHA-256 recipient key identifier.
pub const ML_KEM_KID_LENGTH: usize = 32;
/// ML-KEM-512 encapsulation key length.
pub const ML_KEM_512_PUBLIC_KEY_LENGTH: usize = 800;
/// ML-KEM-768 encapsulation key length.
pub const ML_KEM_768_PUBLIC_KEY_LENGTH: usize = 1_184;
/// ML-KEM-1024 encapsulation key length.
pub const ML_KEM_1024_PUBLIC_KEY_LENGTH: usize = 1_568;
/// ML-KEM-512 ciphertext length.
pub const ML_KEM_512_CIPHERTEXT_LENGTH: usize = 768;
/// ML-KEM-768 ciphertext length.
pub const ML_KEM_768_CIPHERTEXT_LENGTH: usize = 1_088;
/// ML-KEM-1024 ciphertext length.
pub const ML_KEM_1024_CIPHERTEXT_LENGTH: usize = 1_568;

/// IANA COSE Algorithms value of AES-KW with a 128-bit key.
pub const IANA_ALG_A128KW: i64 = -3;
/// IANA COSE Algorithms value of AES-KW with a 192-bit key.
pub const IANA_ALG_A192KW: i64 = -4;
/// IANA COSE Algorithms value of AES-KW with a 256-bit key.
pub const IANA_ALG_A256KW: i64 = -5;
/// IANA COSE Algorithms value of AES-GCM with a 128-bit key.
pub const IANA_ALG_A128GCM: i64 = 1;
/// IANA COSE Algorithms value of AES-GCM with a 192-bit key.
pub const IANA_ALG_A192GCM: i64 = 2;
/// IANA COSE Algorithms value of AES-GCM with a 256-bit key.
pub const IANA_ALG_A256GCM: i64 = 3;

/// Every parameter of one ML-KEM recipient suite.
#[derive(Clone, Copy, Debug, PartialEq, Eq, Structural)]
pub struct MlKemSuite {
    /// Identifier namespace.
    pub profile: CoseMlKemProfile,
    /// Direct or AES-KW key distribution.
    pub mode: CoseMlKemMode,
    /// ML-KEM parameter set.
    pub kem: CoseMlKemAlgorithm,
    /// Private-use COSE algorithm identifier of the recipient.
    pub cose_algorithm: i64,
    /// Key-encryption key length in key-wrap mode.
    pub kek_length: Option<usize>,
    /// IANA AES-KW identifier bound into the KDF context in key-wrap mode.
    pub key_wrap_algorithm_id: Option<i64>,
    /// Encapsulation key length.
    pub public_key_length: usize,
    /// Ciphertext (encapsulated key) length.
    pub encapsulated_key_length: usize,
}

/// The encapsulation key and ciphertext lengths of each parameter set.
pub open spec fn spec_kem_lengths(kem: CoseMlKemAlgorithm) -> (usize, usize) {
    match kem {
        CoseMlKemAlgorithm::MlKem512 => (ML_KEM_512_PUBLIC_KEY_LENGTH, ML_KEM_512_CIPHERTEXT_LENGTH),
        CoseMlKemAlgorithm::MlKem768 => (ML_KEM_768_PUBLIC_KEY_LENGTH, ML_KEM_768_CIPHERTEXT_LENGTH),
        CoseMlKemAlgorithm::MlKem1024 => (ML_KEM_1024_PUBLIC_KEY_LENGTH, ML_KEM_1024_CIPHERTEXT_LENGTH),
    }
}

/// The private-use recipient algorithm identifier of each suite.
pub open spec fn spec_suite_identifier(kem: CoseMlKemAlgorithm, mode: CoseMlKemMode) -> i64 {
    match (kem, mode) {
        (CoseMlKemAlgorithm::MlKem512, CoseMlKemMode::Direct) => REALLYME_COSE_ALG_ML_KEM_512,
        (CoseMlKemAlgorithm::MlKem768, CoseMlKemMode::Direct) => REALLYME_COSE_ALG_ML_KEM_768,
        (CoseMlKemAlgorithm::MlKem1024, CoseMlKemMode::Direct) => REALLYME_COSE_ALG_ML_KEM_1024,
        (CoseMlKemAlgorithm::MlKem512, CoseMlKemMode::KeyWrap) => REALLYME_COSE_ALG_ML_KEM_512_A128KW,
        (CoseMlKemAlgorithm::MlKem768, CoseMlKemMode::KeyWrap) => REALLYME_COSE_ALG_ML_KEM_768_A192KW,
        (CoseMlKemAlgorithm::MlKem1024, CoseMlKemMode::KeyWrap) => REALLYME_COSE_ALG_ML_KEM_1024_A256KW,
    }
}

/// The AES-KW key length and IANA identifier paired with each parameter set.
pub open spec fn spec_key_wrap(kem: CoseMlKemAlgorithm) -> (usize, i64) {
    match kem {
        CoseMlKemAlgorithm::MlKem512 => (16, IANA_ALG_A128KW),
        CoseMlKemAlgorithm::MlKem768 => (24, IANA_ALG_A192KW),
        CoseMlKemAlgorithm::MlKem1024 => (32, IANA_ALG_A256KW),
    }
}

/// The suite of a parameter set and mode.
pub open spec fn spec_suite_for(kem: CoseMlKemAlgorithm, mode: CoseMlKemMode) -> MlKemSuite {
    MlKemSuite {
        profile: CoseMlKemProfile::ReallyMeV1,
        mode,
        kem,
        cose_algorithm: spec_suite_identifier(kem, mode),
        kek_length: match mode {
            CoseMlKemMode::Direct => None,
            CoseMlKemMode::KeyWrap => Some(spec_key_wrap(kem).0),
        },
        key_wrap_algorithm_id: match mode {
            CoseMlKemMode::Direct => None,
            CoseMlKemMode::KeyWrap => Some(spec_key_wrap(kem).1),
        },
        public_key_length: spec_kem_lengths(kem).0,
        encapsulated_key_length: spec_kem_lengths(kem).1,
    }
}

/// The suite named by a private-use recipient algorithm identifier.
pub open spec fn spec_suite_from_identifier(value: i64) -> Result<MlKemSuite, CoseError> {
    if value == REALLYME_COSE_ALG_ML_KEM_512 {
        Ok(spec_suite_for(CoseMlKemAlgorithm::MlKem512, CoseMlKemMode::Direct))
    } else if value == REALLYME_COSE_ALG_ML_KEM_768 {
        Ok(spec_suite_for(CoseMlKemAlgorithm::MlKem768, CoseMlKemMode::Direct))
    } else if value == REALLYME_COSE_ALG_ML_KEM_1024 {
        Ok(spec_suite_for(CoseMlKemAlgorithm::MlKem1024, CoseMlKemMode::Direct))
    } else if value == REALLYME_COSE_ALG_ML_KEM_512_A128KW {
        Ok(spec_suite_for(CoseMlKemAlgorithm::MlKem512, CoseMlKemMode::KeyWrap))
    } else if value == REALLYME_COSE_ALG_ML_KEM_768_A192KW {
        Ok(spec_suite_for(CoseMlKemAlgorithm::MlKem768, CoseMlKemMode::KeyWrap))
    } else if value == REALLYME_COSE_ALG_ML_KEM_1024_A256KW {
        Ok(spec_suite_for(CoseMlKemAlgorithm::MlKem1024, CoseMlKemMode::KeyWrap))
    } else {
        Err(CoseError::UnsupportedAlgorithm)
    }
}

/// The suite named by a parsed recipient algorithm label: only private-use
/// integers name a suite.
pub open spec fn spec_suite_from_cose_algorithm(algorithm: RegisteredLabelWithPrivate) -> Result<
    MlKemSuite,
    CoseError,
> {
    match algorithm {
        RegisteredLabelWithPrivate::PrivateUse(value) => spec_suite_from_identifier(value),
        _ => Err(CoseError::UnsupportedAlgorithm),
    }
}

/// The IANA identifier and key length of each content cipher.
pub open spec fn spec_content_profile(algorithm: CoseContentEncryptionAlgorithm) -> (i64, usize) {
    match algorithm {
        CoseContentEncryptionAlgorithm::Aes128Gcm => (IANA_ALG_A128GCM, 16),
        CoseContentEncryptionAlgorithm::Aes192Gcm => (IANA_ALG_A192GCM, 24),
        CoseContentEncryptionAlgorithm::Aes256Gcm => (IANA_ALG_A256GCM, 32),
    }
}

/// The content cipher named by a parsed body algorithm label.
pub open spec fn spec_content_algorithm_from_cose(algorithm: RegisteredLabelWithPrivate) -> Result<
    CoseContentEncryptionAlgorithm,
    CoseError,
> {
    match algorithm {
        RegisteredLabelWithPrivate::Assigned(value) => if value == IANA_ALG_A128GCM {
            Ok(CoseContentEncryptionAlgorithm::Aes128Gcm)
        } else if value == IANA_ALG_A192GCM {
            Ok(CoseContentEncryptionAlgorithm::Aes192Gcm)
        } else if value == IANA_ALG_A256GCM {
            Ok(CoseContentEncryptionAlgorithm::Aes256Gcm)
        } else {
            Err(CoseError::UnsupportedAlgorithm)
        },
        _ => Err(CoseError::UnsupportedAlgorithm),
    }
}

/// Select the recipient suite of an ML-KEM parameter set and mode.
pub fn suite_for(kem: CoseMlKemAlgorithm, mode: CoseMlKemMode) -> (r: Result<MlKemSuite, CoseError>)
    ensures
        r == Ok::<MlKemSuite, CoseError>(spec_suite_for(kem, mode)),
{
    let (cose_algorithm, kek_length, key_wrap_algorithm_id, public_key_length, encapsulated_key_length) =
        match (kem, mode) {
        (CoseMlKemAlgorithm::MlKem512, CoseMlKemMode::Direct) => (
            REALLYME_COSE_ALG_ML_KEM_512,
            None,
            None,
            ML_KEM_512_PUBLIC_KEY_LENGTH,
            ML_KEM_512_CIPHERTEXT_LENGTH,
        ),
        (CoseMlKemAlgorithm::MlKem768, CoseMlKemMode::Direct) => (
            REALLYME_COSE_ALG_ML_KEM_768,
            None,
            None,
            ML_KEM_768_PUBLIC_KEY_LENGTH,
            ML_KEM_768_CIPHERTEXT_LENGTH,
        ),
        (CoseMlKemAlgorithm::MlKem1024, CoseMlKemMode::Direct) => (
            REALLYME_COSE_ALG_ML_KEM_1024,
            None,
            None,
            ML_KEM_1024_PUBLIC_KEY_LENGTH,
            ML_KEM_1024_CIPHERTEXT_LENGTH,
        ),
        (CoseMlKemAlgorithm::MlKem512, CoseMlKemMode::KeyWrap) => (
            REALLYME_COSE_ALG_ML_KEM_512_A128KW,
            Some(16usize),
            Some(IANA_ALG_A128KW),
            ML_KEM_512_PUBLIC_KEY_LENGTH,
            ML_KEM_512_CIPHERTEXT_LENGTH,
        ),
        (CoseMlKemAlgorithm::MlKem768, CoseMlKemMode::KeyWrap) => (
            REALLYME_COSE_ALG_ML_KEM_768_A192KW,
            Some(24usize),
            Some(IANA_ALG_A192KW),
            ML_KEM_768_PUBLIC_KEY_LENGTH,
            ML_KEM_768_CIPHERTEXT_LENGTH,
        ),
        (CoseMlKemAlgorithm::MlKem1024, CoseMlKemMode::KeyWrap) => (
            REALLYME_COSE_ALG_ML_KEM_1024_A256KW,
            Some(32usize),
            Some(IANA_ALG_A256KW),
            ML_KEM_1024_PUBLIC_KEY_LENGTH,
            ML_KEM_1024_CIPHERTEXT_LENGTH,
        ),
    };
    Ok(
        MlKemSuite {
            profile: CoseMlKemProfile::ReallyMeV1,
            mode,
            kem,
            cose_algorithm,
            kek_length,
            key_wrap_algorithm_id,
            public_key_length,
            encapsulated_key_length,
        },
    )
}

/// Resolve the recipient suite named by a parsed recipient algorithm label.
///
/// Only the ReallyMe private-use identifiers name a suite; assigned and text
/// labels are [`CoseError::UnsupportedAlgorithm`].
pub fn suite_from_cose_algorithm(algorithm: &RegisteredLabelWithPrivate) -> (r: Result<
    MlKemSuite,
    CoseError,
>)
    ensures
        r == spec_suite_from_cose_algorithm(*algorithm),
{
    let value = match algorithm {
        RegisteredLabelWithPrivate::PrivateUse(value) => *value,
        RegisteredLabelWithPrivate::Assigned(_) | RegisteredLabelWithPrivate::Text(_) => {
            return Err(CoseError::UnsupportedAlgorithm);
        },
    };
    if value == REALLYME_COSE_ALG_ML_KEM_512 {
        suite_for(CoseMlKemAlgorithm::MlKem512, CoseMlKemMode::Direct)
    } else if value == REALLYME_COSE_ALG_ML_KEM_768 {
        suite_for(CoseMlKemAlgorithm::MlKem768, CoseMlKemMode::Direct)
    } else if value == REALLYME_COSE_ALG_ML_KEM_1024 {
        suite_for(CoseMlKemAlgorithm::MlKem1024, CoseMlKemMode::Direct)
    } else if value == REALLYME_COSE_ALG_ML_KEM_512_A128KW {
        suite_for(CoseMlKemAlgorithm::MlKem512, CoseMlKemMode::KeyWrap)
    } else if value == REALLYME_COSE_ALG_ML_KEM_768_A192KW {
        suite_for(CoseMlKemAlgorithm::MlKem768, CoseMlKemMode::KeyWrap)
    } else if value == REALLYME_COSE_ALG_ML_KEM_1024_A256KW {
        suite_for(CoseMlKemAlgorithm::MlKem1024, CoseMlKemMode::KeyWrap)
    } else {
        Err(CoseError::UnsupportedAlgorithm)
    }
}

/// The IANA identifier and key length of a content cipher.
pub fn content_algorithm_profile(algorithm: CoseContentEncryptionAlgorithm) -> (r: (i64, usize))
    ensures
        r == spec_content_profile(algorithm),
{
    match algorithm {
        CoseContentEncryptionAlgorithm::Aes128Gcm => (IANA_ALG_A128GCM, 16),
        CoseContentEncryptionAlgorithm::Aes192Gcm => (IANA_ALG_A192GCM, 24),
        CoseContentEncryptionAlgorithm::Aes256Gcm => (IANA_ALG_A256GCM, 32),
    }
}

/// Resolve the content cipher named by a parsed body algorithm label.
pub fn content_algorithm_from_cose(algorithm: &RegisteredLabelWithPrivate) -> (r: Result<
    CoseContentEncryptionAlgorithm,
    CoseError,
>)
    ensures
        r == spec_content_algorithm_from_cose(*algorithm),
{
    match algorithm {
        RegisteredLabelWithPrivate::Assigned(value) => {
            if *value == IANA_ALG_A128GCM {
                Ok(CoseContentEncryptionAlgorithm::Aes128Gcm)
            } else if *value == IANA_ALG_A192GCM {
                Ok(CoseContentEncryptionAlgorithm::Aes192Gcm)
            } else if *value == IANA_ALG_A256GCM {
                Ok(CoseContentEncryptionAlgorithm::Aes256Gcm)
            } else {
                Err(CoseError::UnsupportedAlgorithm)
            }
        },
        _ => Err(CoseError::UnsupportedAlgorithm),
    }
}

/// Every suite is recovered from its recipient algorithm identifier, and that
/// identifier lies in the private-use range.
pub proof fn lemma_suite_identifier_roundtrip(kem: CoseMlKemAlgorithm, mode: CoseMlKemMode)
    ensures
        spec_suite_from_cose_algorithm(
            RegisteredLabelWithPrivate::PrivateUse(spec_suite_for(kem, mode).cose_algorithm),
        ) == Ok::<MlKemSuite, CoseError>(spec_suite_for(kem, mode)),
        spec_suite_for(kem, mode).cose_algorithm < COSE_PRIVATE_USE_MAX,
{
}

/// A recipient identifier resolves only to the suite that carries it, and a
/// suite's parameters follow from its parameter set and mode: key-wrap suites
/// and only they carry a KEK length and AES-KW identifier.
pub proof fn lemma_suite_from_identifier_exact(value: i64)
    ensures
        spec_suite_from_identifier(value) matches Ok(suite) ==> suite == spec_suite_for(
            suite.kem,
            suite.mode,
        ) && suite.cose_algorithm == value,
        forall|kem: CoseMlKemAlgorithm, mode: CoseMlKemMode|
            (#[trigger] spec_suite_for(kem, mode)).kek_length is Some <==> mode
                == CoseMlKemMode::KeyWrap,
{
}

/// Every content cipher is recovered from its IANA identifier.
pub proof fn lemma_content_algorithm_roundtrip(algorithm: CoseContentEncryptionAlgorithm)
    ensures
        spec_content_algorithm_from_cose(
            RegisteredLabelWithPrivate::Assigned(spec_content_profile(algorithm).0),
        ) == Ok::<CoseContentEncryptionAlgorithm, CoseError>(algorithm),
{
}

/// The security strength, in bits, of each ML-KEM parameter set (FIPS 203,
/// section 8: ML-KEM-512, -768 and -1024 are in security categories 1, 3
/// and 5, those of AES-128, AES-192 and AES-256).
pub open spec fn spec_ml_kem_security_bits(kem: CoseMlKemAlgorithm) -> int {
    match kem {
        CoseMlKemAlgorithm::MlKem512 => 128,
        CoseMlKemAlgorithm::MlKem768 => 192,
        CoseMlKemAlgorithm::MlKem1024 => 256,
    }
}

/// The key-wrap suite of every ML-KEM parameter set wraps with the AES-KW
/// of the parameter set's own strength: its key-encryption key has as many
/// bits as the parameter set's security strength, the IANA identifier bound
/// into the KDF context is the AES-KW of that key size (A128KW -3, A192KW
/// -4, A256KW -5: `-(bytes / 8 + 1)`), and its recipient identifier reads
/// back as the same suite. Direct suites carry no key wrap.
pub proof fn lemma_key_wrap_matches_kem_strength(kem: CoseMlKemAlgorithm, mode: CoseMlKemMode)
    ensures
        mode == CoseMlKemMode::KeyWrap ==> {
            &&& spec_suite_for(kem, mode).kek_length matches Some(kek_length)
            &&& kek_length * 8 == spec_ml_kem_security_bits(kem)
            &&& spec_suite_for(kem, mode).key_wrap_algorithm_id == Some((-(kek_length / 8 + 1)) as i64)
        },
        mode == CoseMlKemMode::Direct ==> spec_suite_for(kem, mode).kek_length is None
            && spec_suite_for(kem, mode).key_wrap_algorithm_id is None,
        spec_suite_from_cose_algorithm(RegisteredLabelWithPrivate::PrivateUse(spec_suite_for(kem, mode).cose_algorithm))
            == Ok::<MlKemSuite, CoseError>(spec_suite_for(kem, mode)),
{
}

} // verus!
