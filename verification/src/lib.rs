//! COSE helpers for identity software: COSE_Sign1 policy, COSE_Key, Multikey
//! interop, the ML-KEM profile for COSE_Encrypt, and deterministic CBOR
//! boundary checks, specified and proved with Verus.

pub mod algorithm;
pub mod boundary;
pub mod bytes;
pub mod cbor;
pub mod crypto_failure;
pub mod encrypt;
pub mod error;
pub mod failure;
pub mod key;
pub mod limits;
pub mod multikey;
pub mod operation;
pub mod policy;

pub use algorithm::Algorithm;
pub use error::CoseError;
