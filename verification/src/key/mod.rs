//! COSE_Key construction, parsing, validation and encoding.

pub mod convert;
pub mod derive_kid;
pub mod ec;
pub mod encode;
pub mod encoding;
pub mod extract;
pub mod owned;
pub mod parse;
pub mod profile;
pub mod roundtrip;
pub mod validate;
pub mod wipe;
