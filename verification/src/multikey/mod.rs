//! Multikey interoperation.

pub mod convert;
