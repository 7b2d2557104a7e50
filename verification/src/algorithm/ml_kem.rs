use vstd::prelude::*;

verus! {

/// ReallyMe private-use COSE algorithm identifier for direct ML-KEM-512.
pub const REALLYME_COSE_ALG_ML_KEM_512: i64 = -65_537;
/// ReallyMe private-use COSE algorithm identifier for direct ML-KEM-768.
pub const REALLYME_COSE_ALG_ML_KEM_768: i64 = -65_538;
/// ReallyMe private-use COSE algorithm identifier for direct ML-KEM-1024.
pub const REALLYME_COSE_ALG_ML_KEM_1024: i64 = -65_539;
/// ReallyMe private-use COSE algorithm identifier for ML-KEM-512+A128KW.
pub const REALLYME_COSE_ALG_ML_KEM_512_A128KW: i64 = -65_540;
/// ReallyMe private-use COSE algorithm identifier for ML-KEM-768+A192KW.
pub const REALLYME_COSE_ALG_ML_KEM_768_A192KW: i64 = -65_541;
/// ReallyMe private-use COSE algorithm identifier for ML-KEM-1024+A256KW.
pub const REALLYME_COSE_ALG_ML_KEM_1024_A256KW: i64 = -65_542;

/// ReallyMe private-use COSE header label carrying the ML-KEM ciphertext.
///
/// A private-use label is used so that emitted objects cannot be silently
/// reinterpreted if a final IANA assignment differs from draft values.
pub const REALLYME_COSE_HEADER_EK: i64 = -65_543;

} // verus!
