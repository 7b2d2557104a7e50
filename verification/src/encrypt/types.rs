//! Request, result and selector types of the ML-KEM `COSE_Encrypt` profile.

use vstd::prelude::*;

use crate::algorithm::Algorithm;

verus! {

/// ML-KEM parameter sets supported by the ReallyMe COSE profile.
///
/// This profile-specific selector keeps unrelated primitives out of the
/// encryption API; conversion to the broader primitive selector happens only
/// at the primitive boundary.
#[non_exhaustive]
#[derive(Debug, Clone, Copy, PartialEq, Eq, Structural)]
pub enum CoseMlKemAlgorithm {
    /// ML-KEM-512.
    MlKem512,
    /// ML-KEM-768.
    MlKem768,
    /// ML-KEM-1024.
    MlKem1024,
}

/// The primitive that executes each ML-KEM parameter set.
pub open spec fn spec_kem_primitive(kem: CoseMlKemAlgorithm) -> Algorithm {
    match kem {
        CoseMlKemAlgorithm::MlKem512 => Algorithm::MlKem512,
        CoseMlKemAlgorithm::MlKem768 => Algorithm::MlKem768,
        CoseMlKemAlgorithm::MlKem1024 => Algorithm::MlKem1024,
    }
}

impl CoseMlKemAlgorithm {
    /// The primitive selector that executes this parameter set.
    pub fn crypto_algorithm(self) -> (r: Algorithm)
        ensures
            r == spec_kem_primitive(self),
    {
        match self {
            Self::MlKem512 => Algorithm::MlKem512,
            Self::MlKem768 => Algorithm::MlKem768,
            Self::MlKem1024 => Algorithm::MlKem1024,
        }
    }
}

/// Content-encryption algorithms supported by the ReallyMe ML-KEM COSE profile.
///
/// The content cipher is selected independently from the ML-KEM parameter set.
/// Applications seeking aligned strength pair ML-KEM-512/768/1024 with
/// AES-128/192/256-GCM respectively; a mixed pairing has the strength of its
/// weaker component.
#[non_exhaustive]
#[derive(Debug, Clone, Copy, PartialEq, Eq, Structural)]
pub enum CoseContentEncryptionAlgorithm {
    /// AES-128-GCM.
    Aes128Gcm,
    /// AES-192-GCM.
    Aes192Gcm,
    /// AES-256-GCM.
    Aes256Gcm,
}

/// ML-KEM key-distribution mode used by a `COSE_Recipient`.
#[non_exhaustive]
#[derive(Debug, Clone, Copy, PartialEq, Eq, Structural)]
pub enum CoseMlKemMode {
    /// KMAC256 derives the content-encryption key directly.
    Direct,
    /// KMAC256 derives an AES-KW key-encryption key that unwraps the CEK.
    KeyWrap,
}

/// Identifier namespace used by a decoded ML-KEM COSE object.
#[non_exhaustive]
#[derive(Debug, Clone, Copy, PartialEq, Eq, Structural)]
pub enum CoseMlKemProfile {
    /// Stable ReallyMe private-use identifiers for the pre-IANA profile.
    ReallyMeV1,
}

/// Inputs for creating one-recipient ReallyMe ML-KEM `COSE_Encrypt`.
///
/// The recipient `kid` is mandatory in the ReallyMe profile and is placed in
/// the protected recipient header. This binds key selection to the same bytes
/// that are fed into the COSE KDF context.
#[must_use]
#[non_exhaustive]
pub struct CoseMlKemEncryptRequest<'a> {
    /// ML-KEM-512, ML-KEM-768, or ML-KEM-1024.
    pub kem_algorithm: CoseMlKemAlgorithm,
    /// AES-GCM algorithm used for the content layer.
    pub content_algorithm: CoseContentEncryptionAlgorithm,
    /// Raw FIPS 203 ML-KEM encapsulation public key.
    pub recipient_public_key: &'a [u8],
    /// SHA-256 thumbprint of the canonical public COSE_Key for this recipient.
    pub recipient_kid: &'a [u8],
    /// Plaintext to encrypt.
    pub plaintext: &'a [u8],
    /// Optional mutually known private KDF context agreed out of band.
    pub supp_priv_info: Option<&'a [u8]>,
}

impl<'a> CoseMlKemEncryptRequest<'a> {
    /// Construct a complete bounded ML-KEM encryption request.
    pub fn new(
        kem_algorithm: CoseMlKemAlgorithm,
        content_algorithm: CoseContentEncryptionAlgorithm,
        recipient_public_key: &'a [u8],
        recipient_kid: &'a [u8],
        plaintext: &'a [u8],
        supp_priv_info: Option<&'a [u8]>,
    ) -> (r: Self)
        ensures
            r.kem_algorithm == kem_algorithm,
            r.content_algorithm == content_algorithm,
            r.recipient_public_key@ == recipient_public_key@,
            r.recipient_kid@ == recipient_kid@,
            r.plaintext@ == plaintext@,
            r.supp_priv_info == supp_priv_info,
    {
        Self {
            kem_algorithm,
            content_algorithm,
            recipient_public_key,
            recipient_kid,
            plaintext,
            supp_priv_info,
        }
    }

    /// Replace the optional mutually known private KDF context.
    pub fn with_supp_priv_info(self, supp_priv_info: Option<&'a [u8]>) -> (r: Self)
        ensures
            r.supp_priv_info == supp_priv_info,
            r.kem_algorithm == self.kem_algorithm,
            r.content_algorithm == self.content_algorithm,
            r.recipient_public_key == self.recipient_public_key,
            r.recipient_kid == self.recipient_kid,
            r.plaintext == self.plaintext,
    {
        let mut request = self;
        request.supp_priv_info = supp_priv_info;
        request
    }
}

/// Inputs for decrypting one-recipient ReallyMe ML-KEM `COSE_Encrypt`.
#[must_use]
#[non_exhaustive]
pub struct CoseMlKemDecryptRequest<'a> {
    /// Tagged or untagged encoded `COSE_Encrypt`.
    pub cose_encrypt: &'a [u8],
    /// Raw 64-octet FIPS 203 ML-KEM seed `d || z`.
    pub recipient_private_key: &'a [u8],
    /// Expected canonical public COSE_Key thumbprint for the selected private key.
    pub expected_recipient_kid: &'a [u8],
    /// Optional mutually known private KDF context agreed out of band.
    pub supp_priv_info: Option<&'a [u8]>,
}

impl<'a> CoseMlKemDecryptRequest<'a> {
    /// Construct a complete bounded ML-KEM decryption request.
    pub fn new(
        cose_encrypt: &'a [u8],
        recipient_private_key: &'a [u8],
        expected_recipient_kid: &'a [u8],
        supp_priv_info: Option<&'a [u8]>,
    ) -> (r: Self)
        ensures
            r.cose_encrypt@ == cose_encrypt@,
            r.recipient_private_key@ == recipient_private_key@,
            r.expected_recipient_kid@ == expected_recipient_kid@,
            r.supp_priv_info == supp_priv_info,
    {
        Self { cose_encrypt, recipient_private_key, expected_recipient_kid, supp_priv_info }
    }

    /// Replace the optional mutually known private KDF context.
    pub fn with_supp_priv_info(self, supp_priv_info: Option<&'a [u8]>) -> (r: Self)
        ensures
            r.supp_priv_info == supp_priv_info,
            r.cose_encrypt == self.cose_encrypt,
            r.recipient_private_key == self.recipient_private_key,
            r.expected_recipient_kid == self.expected_recipient_kid,
    {
        let mut request = self;
        request.supp_priv_info = supp_priv_info;
        request
    }
}

/// Authenticated plaintext and recipient metadata from `COSE_Encrypt`.
#[must_use]
#[non_exhaustive]
pub struct DecryptedCoseEncrypt {
    /// Authenticated plaintext.
    pub plaintext: Vec<u8>,
    /// Content-encryption algorithm from the protected body header.
    pub content_algorithm: CoseContentEncryptionAlgorithm,
    /// ML-KEM algorithm from the protected recipient header.
    pub kem_algorithm: CoseMlKemAlgorithm,
    /// Direct or AES-KW recipient mode.
    pub mode: CoseMlKemMode,
    /// Protected recipient key identifier.
    pub kid: Vec<u8>,
    /// Identifier namespace decoded from the recipient algorithm.
    pub profile: CoseMlKemProfile,
}

} // verus!
