//! ReallyMe ML-KEM profiles for `COSE_Encrypt` and `COSE_Recipient`.

pub mod codec;
pub mod create;
pub mod decrypt;
pub mod kdf;
pub mod profile;
pub mod types;

pub use types::{
    CoseContentEncryptionAlgorithm, CoseMlKemAlgorithm, CoseMlKemDecryptRequest,
    CoseMlKemEncryptRequest, CoseMlKemMode, CoseMlKemProfile, DecryptedCoseEncrypt,
};
