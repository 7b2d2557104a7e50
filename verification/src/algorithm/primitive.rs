use vstd::prelude::*;

verus! {

/// Cryptographic primitive selector used by the COSE API.
///
/// The variants are those of the primitive selector of the ReallyMe crypto
/// provider, which executes them.
#[derive(Clone, Copy, Debug, PartialEq, Eq, Hash, Structural)]
pub enum Algorithm {
    /// Ed25519 EdDSA signatures.
    Ed25519,
    /// X25519 Diffie-Hellman key agreement.
    X25519,
    /// NIST P-256 ECDSA and ECDH.
    P256,
    /// NIST P-384 ECDSA and ECDH.
    P384,
    /// NIST P-521 ECDSA and ECDH.
    P521,
    /// secp256k1 ECDSA.
    Secp256k1,
    /// ML-DSA-44 signatures.
    MlDsa44,
    /// ML-DSA-65 signatures.
    MlDsa65,
    /// ML-DSA-87 signatures.
    MlDsa87,
    /// SLH-DSA-SHA2-128s signatures.
    SlhDsaSha2_128s,
    /// ML-KEM-512 key encapsulation.
    MlKem512,
    /// ML-KEM-768 key encapsulation.
    MlKem768,
    /// ML-KEM-1024 key encapsulation.
    MlKem1024,
    /// X-Wing hybrid KEM over X25519 and ML-KEM-768.
    XWing768,
}

} // verus!
