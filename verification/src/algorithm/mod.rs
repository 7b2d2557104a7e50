//! COSE algorithm identifiers and their mapping to cryptographic primitives.

pub mod label;
pub mod ml_kem;
pub mod primitive;
pub mod signature;

pub use label::{Label, RegisteredLabel, RegisteredLabelWithPrivate};
pub use ml_kem::{
    REALLYME_COSE_ALG_ML_KEM_1024, REALLYME_COSE_ALG_ML_KEM_1024_A256KW,
    REALLYME_COSE_ALG_ML_KEM_512, REALLYME_COSE_ALG_ML_KEM_512_A128KW,
    REALLYME_COSE_ALG_ML_KEM_768, REALLYME_COSE_ALG_ML_KEM_768_A192KW, REALLYME_COSE_HEADER_EK,
};
pub use primitive::Algorithm;
pub use signature::CoseSignatureAlgorithm;
