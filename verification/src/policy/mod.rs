//! COSE_Sign1 verification policy.

pub mod validate;

pub use validate::CosePolicy;
