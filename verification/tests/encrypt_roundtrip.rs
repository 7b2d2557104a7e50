use reallyme_cose::algorithm::{REALLYME_COSE_ALG_ML_KEM_768, REALLYME_COSE_ALG_ML_KEM_768_A192KW};
use reallyme_cose::encrypt::create::{
    begin_encrypt, body_protected, check_content_ciphertext, check_encapsulated_key,
    check_recipient_kid, content_aad, content_key_step, finish_encrypt, ContentKeyStep, recipient_key_derivation,
    recipient_protected,
};
use reallyme_cose::encrypt::decrypt::{
    begin_decrypt, check_recipient, check_unwrapped_key, content_ciphertext, content_key_source, finish_decrypt,
    wrapped_key,
};
use reallyme_cose::encrypt::kdf::{enc_structure, kdf_context};
use reallyme_cose::encrypt::{
    CoseContentEncryptionAlgorithm, CoseMlKemAlgorithm, CoseMlKemDecryptRequest,
    CoseMlKemEncryptRequest, CoseMlKemMode, CoseMlKemProfile,
};
use coset::TaggedCborSerializable;
use reallyme_cose::CoseError;

const KID: [u8; 32] = [7u8; 32];
const NONCE: [u8; 12] = [9u8; 12];

fn public_key() -> Vec<u8> {
    vec![1u8; 1_184]
}

fn encapsulated_key() -> Vec<u8> {
    vec![2u8; 1_088]
}

fn fake_ciphertext(plaintext: &[u8]) -> Vec<u8> {
    let mut ciphertext = plaintext.to_vec();
    ciphertext.extend_from_slice(&[0xAA; 16]);
    ciphertext
}

fn encrypt(mode: CoseMlKemMode, plaintext: &[u8], aad: &[u8]) -> Vec<u8> {
    let public_key = public_key();
    let request = CoseMlKemEncryptRequest::new(
        CoseMlKemAlgorithm::MlKem768,
        CoseContentEncryptionAlgorithm::Aes192Gcm,
        &public_key,
        &KID,
        plaintext,
        None,
    );
    let suite = begin_encrypt(&request, mode, aad).expect("request accepted");
    assert_eq!(suite.kem, CoseMlKemAlgorithm::MlKem768);
    let ek = encapsulated_key();
    check_encapsulated_key(&suite, &ek).expect("ciphertext length");
    check_recipient_kid(&KID, &KID).expect("kid matches");
    let recipient = recipient_protected(&suite, &KID);
    let (key_length, context) = recipient_key_derivation(
        &suite,
        CoseContentEncryptionAlgorithm::Aes192Gcm,
        &recipient,
        None,
    )
    .expect("kdf context");
    assert_eq!(key_length, 24);
    let wrapped = match content_key_step(&suite, CoseContentEncryptionAlgorithm::Aes192Gcm) {
        ContentKeyStep::UseDerivedKey => {
            assert_eq!(mode, CoseMlKemMode::Direct);
            None
        }
        ContentKeyStep::WrapFreshKey { content_key_length } => {
            assert_eq!(mode, CoseMlKemMode::KeyWrap);
            assert_eq!(content_key_length, 24);
            Some(vec![0x55u8; content_key_length + 8])
        }
    };
    assert!(!context.is_empty());
    let body = body_protected(CoseContentEncryptionAlgorithm::Aes192Gcm);
    let aad_bytes = content_aad(&body, aad).expect("enc_structure");
    assert!(!aad_bytes.is_empty());
    let ciphertext = fake_ciphertext(plaintext);
    check_content_ciphertext(plaintext.len(), &ciphertext).expect("tag present");
    finish_encrypt(&suite, recipient, ek, wrapped, body, &NONCE, ciphertext).expect("encoded")
}

#[test]
fn direct_mode_object_decodes_to_the_same_recipient_and_content() {
    let plaintext = b"hello ML-KEM";
    let bytes = encrypt(CoseMlKemMode::Direct, plaintext, b"context");
    let parsed = coset::CoseEncrypt::from_tagged_slice(&bytes).expect("coset parses");
    assert_eq!(
        parsed.protected.header.alg,
        Some(coset::RegisteredLabelWithPrivate::Assigned(coset::iana::Algorithm::A192GCM))
    );
    assert_eq!(parsed.unprotected.iv, NONCE.to_vec());
    assert_eq!(parsed.ciphertext, Some(fake_ciphertext(plaintext)));
    assert_eq!(parsed.recipients.len(), 1);
    assert_eq!(
        parsed.recipients[0].protected.header.alg,
        Some(coset::RegisteredLabelWithPrivate::PrivateUse(REALLYME_COSE_ALG_ML_KEM_768))
    );
    assert_eq!(parsed.recipients[0].protected.header.key_id, KID.to_vec());
    assert_eq!(parsed.recipients[0].ciphertext, None);

    let private_key = [3u8; 64];
    let request = CoseMlKemDecryptRequest::new(&bytes, &private_key, &KID, None);
    let plan = begin_decrypt(&request, b"context").expect("decodes");
    assert_eq!(plan.suite.mode, CoseMlKemMode::Direct);
    assert_eq!(plan.suite.cose_algorithm, REALLYME_COSE_ALG_ML_KEM_768);
    assert_eq!(plan.content_algorithm, CoseContentEncryptionAlgorithm::Aes192Gcm);
    let ek = check_recipient(&plan, &KID).expect("kid matches");
    assert_eq!(ek, encapsulated_key().as_slice());
    assert_eq!(wrapped_key(&plan), Err(CoseError::MissingCiphertext));
    assert_eq!(content_key_source(&plan), Ok(None));
    let (nonce, ciphertext) = content_ciphertext(&plan).expect("content");
    assert_eq!(nonce, &NONCE);
    assert_eq!(ciphertext, fake_ciphertext(plaintext).as_slice());
    let result = finish_decrypt(&plan, plaintext.to_vec()).expect("result");
    assert_eq!(result.plaintext, plaintext.to_vec());
    assert_eq!(result.kem_algorithm, CoseMlKemAlgorithm::MlKem768);
    assert_eq!(result.mode, CoseMlKemMode::Direct);
    assert_eq!(result.kid, KID.to_vec());
    assert_eq!(result.profile, CoseMlKemProfile::ReallyMeV1);
}

#[test]
fn key_wrap_object_carries_the_wrapped_key() {
    let plaintext = b"wrapped";
    let bytes = encrypt(CoseMlKemMode::KeyWrap, plaintext, b"");
    let private_key = [3u8; 64];
    let request = CoseMlKemDecryptRequest::new(&bytes, &private_key, &KID, None);
    let plan = begin_decrypt(&request, b"").expect("decodes");
    assert_eq!(plan.suite.mode, CoseMlKemMode::KeyWrap);
    assert_eq!(plan.suite.cose_algorithm, REALLYME_COSE_ALG_ML_KEM_768_A192KW);
    assert_eq!(wrapped_key(&plan), Ok(&[0x55u8; 32][..]));
    assert_eq!(content_key_source(&plan), Ok(Some((&[0x55u8; 32][..], 24))));
    assert_eq!(check_unwrapped_key(&[0u8; 24], 24), Ok(()));
    assert!(check_unwrapped_key(&[0u8; 16], 24).is_err());
}

#[test]
fn decryption_rejects_another_recipient_kid() {
    let bytes = encrypt(CoseMlKemMode::Direct, b"x", b"");
    let private_key = [3u8; 64];
    let other_kid = [8u8; 32];
    let request = CoseMlKemDecryptRequest::new(&bytes, &private_key, &other_kid, None);
    assert!(matches!(begin_decrypt(&request, b""), Err(CoseError::KidMismatch)));
}

#[test]
fn encryption_rejects_missing_and_wrong_length_kid() {
    let public_key = public_key();
    let request = CoseMlKemEncryptRequest::new(
        CoseMlKemAlgorithm::MlKem768,
        CoseContentEncryptionAlgorithm::Aes128Gcm,
        &public_key,
        &[],
        b"x",
        None,
    );
    assert_eq!(begin_encrypt(&request, CoseMlKemMode::Direct, b""), Err(CoseError::MissingKid));
    let short_kid = [1u8; 31];
    let request = CoseMlKemEncryptRequest::new(
        CoseMlKemAlgorithm::MlKem768,
        CoseContentEncryptionAlgorithm::Aes128Gcm,
        &public_key,
        &short_kid,
        b"x",
        None,
    );
    assert_eq!(begin_encrypt(&request, CoseMlKemMode::Direct, b""), Err(CoseError::KidMismatch));
    assert_eq!(check_recipient_kid(&KID, &[8u8; 32]), Err(CoseError::KidMismatch));
}

#[test]
fn encapsulated_key_and_ciphertext_lengths_are_checked() {
    let public_key = public_key();
    let request = CoseMlKemEncryptRequest::new(
        CoseMlKemAlgorithm::MlKem768,
        CoseContentEncryptionAlgorithm::Aes128Gcm,
        &public_key,
        &KID,
        b"x",
        None,
    );
    let suite = begin_encrypt(&request, CoseMlKemMode::Direct, b"").expect("accepted");
    assert!(check_encapsulated_key(&suite, &[0u8; 1_087]).is_err());
    assert!(check_content_ciphertext(4, &[0u8; 19]).is_err());
    assert_eq!(check_content_ciphertext(4, &[0u8; 20]), Ok(()));
}

#[test]
fn enc_structure_is_the_cbor_array_of_context_protected_and_aad() {
    let bytes = enc_structure(&[0xA1, 0x01, 0x01], b"aad").expect("encoded");
    let mut expected = vec![0x83, 0x67];
    expected.extend_from_slice(b"Encrypt");
    expected.extend_from_slice(&[0x43, 0xA1, 0x01, 0x01, 0x43]);
    expected.extend_from_slice(b"aad");
    assert_eq!(bytes, expected);
}

#[test]
fn kdf_context_binds_algorithm_length_and_recipient_header() {
    let bytes = kdf_context(-65538, 24, &[0xA0], None).expect("encoded");
    // [-65538, [192, h'A0']]
    assert_eq!(
        bytes,
        vec![0x82, 0x3A, 0x00, 0x01, 0x00, 0x01, 0x82, 0x18, 0xC0, 0x41, 0xA0]
    );
    let with_private = kdf_context(-65538, 24, &[0xA0], Some(b"p")).expect("encoded");
    assert_eq!(with_private[0], 0x83);
    assert_eq!(&with_private[with_private.len() - 2..], &[0x41, b'p']);
}
