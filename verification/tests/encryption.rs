use aes_gcm::aead::Aead;
use aes_gcm::KeyInit;
use mejla::encryption::hex::{from_hex, to_hex};
use mejla::{
    AesGcm256, AesGcmSealedBox, CryptoError, EncryptedAppPassword, EncryptionKey, PbHkdfSha256,
    Salt, SecretString, Zeroize,
};

fn key_of(byte: u8) -> EncryptionKey {
    EncryptionKey::new([byte; 32])
}

#[test]
fn test_salt_generate() {
    let salt1 = Salt::generate();
    let salt2 = Salt::generate();
    assert_ne!(salt1, salt2);
    assert_ne!(*salt1.as_bytes(), [0u8; 16]);
    assert_ne!(*salt2.as_bytes(), [0u8; 16]);
}

#[test]
fn salt_samples_hold_their_bytes() {
    assert_eq!(*Salt::sample().as_bytes(), [0xab; 16]);
    assert_eq!(*Salt::sample_other().as_bytes(), [0xcd; 16]);
    assert_eq!(Salt::new([3; 16]), Salt::new([3; 16]));
    assert_eq!(Salt::from([0xab; 16]), Salt::sample());
    assert!(EncryptionKey::from([4; 32]) == EncryptionKey::new([4; 32]));
    assert_ne!(Salt::sample(), Salt::sample_other());
    assert_eq!(Salt::sample().clone(), Salt::sample());
}

#[test]
fn encrypt_then_decrypt_scenario() {
    let salt = Salt::new([0xab; 16]);
    let encrypted = EncryptedAppPassword::new_by_deriving_and_encrypting(
        SecretString::from("swordfish123"),
        SecretString::from("correct horse battery staple"),
        &salt,
    );
    let key =
        PbHkdfSha256::derive_key_from(SecretString::from("correct horse battery staple"), &salt);
    let decrypted = encrypted.decrypt(key).unwrap();
    assert_eq!(decrypted.expose_secret(), "swordfish123");

    let wrong = PbHkdfSha256::derive_key_from(SecretString::from("wrong password"), &salt);
    assert!(matches!(
        encrypted.decrypt(wrong),
        Err(CryptoError::AesDecryptionFailed)
    ));
}

#[test]
fn derived_key_is_pbkdf2_then_hkdf() {
    let salt = [0xabu8; 16];
    let stretched = pbkdf2::pbkdf2_hmac_array::<sha2::Sha256, 32>(b"hunter22", &salt, 600_000);
    let mut expected = [0u8; 32];
    hkdf::Hkdf::<sha2::Sha256>::new(Some(&salt), &stretched)
        .expand(b"smtp app password encryption key", &mut expected)
        .unwrap();
    let key = PbHkdfSha256::derive_key_from(SecretString::from("hunter22"), &Salt::new(salt));
    assert_eq!(*key.as_bytes(), expected);
    assert_ne!(*key.as_bytes(), stretched);
    assert_eq!(PbHkdfSha256::ROUNDS, 600_000);
}

#[test]
fn key_derivation_is_deterministic() {
    let salt = Salt::sample();
    let first = PbHkdfSha256::derive_key_from(SecretString::from("a password"), &salt);
    let second = PbHkdfSha256::derive_key_from(SecretString::from("a password"), &salt);
    assert_eq!(first.as_bytes(), second.as_bytes());
}

#[test]
fn key_depends_on_password_and_salt() {
    let key = PbHkdfSha256::derive_key_from(SecretString::from("a password"), &Salt::sample());
    let other_password =
        PbHkdfSha256::derive_key_from(SecretString::from("b password"), &Salt::sample());
    let other_salt =
        PbHkdfSha256::derive_key_from(SecretString::from("a password"), &Salt::sample_other());
    assert_ne!(key.as_bytes(), other_password.as_bytes());
    assert_ne!(key.as_bytes(), other_salt.as_bytes());
}

#[test]
fn aes_round_trip_with_raw_key() {
    let sealed = AesGcm256::encrypt(b"hello", key_of(7));
    assert_eq!(sealed.len(), 5 + 28);
    let opened = AesGcm256::decrypt(&sealed, key_of(7)).unwrap();
    assert_eq!(opened, b"hello".to_vec());
}

#[test]
fn sealed_bytes_are_nonce_then_aes_gcm_output() {
    let sealed = AesGcm256::encrypt(b"attack at dawn", key_of(9));
    let cipher = aes_gcm::Aes256Gcm::new(&[9u8; 32].into());
    let mut nonce = [0u8; 12];
    nonce.copy_from_slice(&sealed[..12]);
    let expected = cipher.encrypt(&nonce.into(), b"attack at dawn".as_ref()).unwrap();
    assert_eq!(&sealed[12..], expected.as_slice());
    assert_ne!(&sealed[12..26], b"attack at dawn".as_ref());
}

#[test]
fn empty_plaintext_round_trips() {
    let sealed = AesGcm256::encrypt(b"", key_of(1));
    assert_eq!(sealed.len(), 28);
    assert_eq!(AesGcm256::decrypt(&sealed, key_of(1)), Ok(Vec::new()));
}

#[test]
fn wrong_key_is_rejected() {
    let sealed = AesGcm256::encrypt(b"top secret", key_of(1));
    assert_eq!(
        AesGcm256::decrypt(&sealed, key_of(2)),
        Err(CryptoError::AesDecryptionFailed)
    );
}

#[test]
fn ten_thousand_encryptions_use_distinct_nonces() {
    let mut nonces = std::collections::HashSet::new();
    for _ in 0..10_000 {
        let sealed = AesGcm256::encrypt(b"x", key_of(5));
        let mut nonce = [0u8; 12];
        nonce.copy_from_slice(&sealed[..12]);
        nonces.insert(nonce);
    }
    assert_eq!(nonces.len(), 10_000);
}

#[test]
fn flipping_any_bit_makes_decryption_fail() {
    let sealed = AesGcm256::encrypt(b"swordfish123", key_of(3));
    assert_eq!(sealed.len(), 12 + 12 + 16);
    for index in 0..sealed.len() {
        for bit in 0..8 {
            let mut tampered = sealed.clone();
            tampered[index] ^= 1 << bit;
            assert_eq!(
                AesGcm256::decrypt(&tampered, key_of(3)),
                Err(CryptoError::AesDecryptionFailed)
            );
        }
    }
    assert_eq!(
        AesGcm256::decrypt(&sealed, key_of(3)),
        Ok(b"swordfish123".to_vec())
    );
}

#[test]
fn truncated_sealed_bytes_fail() {
    let sealed = AesGcm256::encrypt(b"swordfish123", key_of(3));
    assert_eq!(
        AesGcm256::decrypt(&sealed[..sealed.len() - 1], key_of(3)),
        Err(CryptoError::AesDecryptionFailed)
    );
}

#[test]
fn too_short_bytes_are_rejected_before_decryption() {
    assert_eq!(
        AesGcm256::decrypt(&[0u8; 27], key_of(0)),
        Err(CryptoError::InvalidAesBytesTooShort {
            expected_at_least: 28,
            found: 27
        })
    );
    assert_eq!(
        AesGcm256::decrypt(&[], key_of(0)),
        Err(CryptoError::InvalidAesBytesTooShort {
            expected_at_least: 28,
            found: 0
        })
    );
    assert_eq!(
        AesGcm256::decrypt(&[0u8; 28], key_of(0)),
        Err(CryptoError::AesDecryptionFailed)
    );
}

#[test]
fn sealed_box_splits_and_joins() {
    let bytes: Vec<u8> = (0u8..40).collect();
    let sealed = AesGcmSealedBox::try_from(&bytes).unwrap();
    assert_eq!(sealed.nonce.0, [0, 1, 2, 3, 4, 5, 6, 7, 8, 9, 10, 11]);
    assert_eq!(sealed.cipher_text, (12u8..40).collect::<Vec<u8>>());
    assert_eq!(sealed.combined(), bytes);

    let short = AesGcmSealedBox::try_from(&bytes[..5]);
    assert!(matches!(
        short,
        Err(CryptoError::InvalidAesBytesTooShort {
            expected_at_least: 28,
            found: 5
        })
    ));
}

#[test]
fn decrypted_bytes_that_are_no_text_are_invalid_utf8() {
    let sealed = AesGcm256::encrypt(&[0xff, 0xfe, 0xfd], key_of(4));
    let encrypted = EncryptedAppPassword::new(sealed);
    assert!(matches!(
        encrypted.decrypt(key_of(4)),
        Err(CryptoError::InvalidUtf8)
    ));
}

#[test]
fn encrypted_app_password_decrypts_with_raw_key() {
    let sealed = AesGcm256::encrypt("pässwörd €".as_bytes(), key_of(4));
    let encrypted = EncryptedAppPassword::new(sealed.clone());
    assert_eq!(encrypted.as_bytes(), sealed.as_slice());
    assert_eq!(encrypted.decrypt(key_of(4)).unwrap().expose_secret(), "pässwörd €");
    assert!(matches!(
        encrypted.decrypt(key_of(5)),
        Err(CryptoError::AesDecryptionFailed)
    ));
    assert!(matches!(
        EncryptedAppPassword::new(vec![1, 2, 3]).decrypt(key_of(4)),
        Err(CryptoError::InvalidAesBytesTooShort {
            expected_at_least: 28,
            found: 3
        })
    ));
}

#[test]
fn encrypting_twice_gives_different_bytes() {
    let salt = Salt::sample();
    let first = EncryptedAppPassword::new_by_deriving_and_encrypting(
        SecretString::from("open sesame"),
        SecretString::from("encryption password"),
        &salt,
    );
    let second = first.clone();
    assert_eq!(first, second);
    assert_eq!(first.as_bytes().len(), "open sesame".len() + 28);
    let third = EncryptedAppPassword::new(AesGcm256::encrypt(b"open sesame", key_of(1)));
    assert_ne!(first, third);
}

#[test]
fn sample_of_encrypted_app_password_decrypts() {
    let key = PbHkdfSha256::derive_key_from(
        SecretString::from("encryption password"),
        &Salt::sample(),
    );
    let secret = EncryptedAppPassword::sample().decrypt(key).unwrap();
    assert_eq!(secret.expose_secret(), "open sesame");
}

#[test]
fn other_sample_of_encrypted_app_password_decrypts() {
    let key = PbHkdfSha256::derive_key_from(
        SecretString::from("another encryption password"),
        &Salt::sample_other(),
    );
    let secret = EncryptedAppPassword::sample_other().decrypt(key).unwrap();
    assert_eq!(secret.expose_secret(), "super_secret");
}

#[test]
fn zeroize_erases_secret_material() {
    let mut salt = Salt::sample();
    salt.zeroize();
    assert_eq!(*salt.as_bytes(), [0u8; 16]);

    let mut key = key_of(0x5a);
    key.zeroize();
    assert_eq!(*key.as_bytes(), [0u8; 32]);

    let mut secret = SecretString::from("swordfish123");
    secret.zeroize();
    assert_eq!(secret.expose_secret(), "");

    let mut encrypted = EncryptedAppPassword::new(vec![1, 2, 3, 4]);
    encrypted.zeroize();
    assert!(encrypted.as_bytes().is_empty());
}

#[test]
fn secret_string_exposes_and_compares() {
    let secret = SecretString::from(String::from("swordfish123"));
    assert_eq!(secret.expose_secret(), "swordfish123");
    assert_eq!(secret.clone().expose_secret(), "swordfish123");
    assert!(secret.same_secret(&SecretString::new("swordfish123".to_string())));
    assert!(!secret.same_secret(&SecretString::from("swordfish124")));
}

#[test]
fn encryption_key_keeps_its_bytes() {
    let key = EncryptionKey::new([8; 32]);
    assert_eq!(*key.as_bytes(), [8; 32]);
    assert_eq!(key.clone().0, [8; 32]);
    assert!(key == EncryptionKey::new([8; 32]));
    assert!(key != EncryptionKey::new([9; 32]));
    assert_eq!(
        CryptoError::aes_decryption_failed("any cause"),
        CryptoError::AesDecryptionFailed
    );
}

#[test]
fn hex_text_has_two_lower_case_digits_for_each_byte() {
    assert_eq!(to_hex(&[]), "");
    assert_eq!(to_hex(&[0x00, 0x0f, 0xa0, 0xff, 0x7b]), "000fa0ff7b");
    assert_eq!(to_hex(&[0xde, 0xad, 0xbe, 0xef]), "deadbeef");
}

#[test]
fn hex_text_is_read_in_either_case() {
    assert_eq!(from_hex(""), Some(vec![]));
    assert_eq!(from_hex("deadBEEF"), Some(vec![0xde, 0xad, 0xbe, 0xef]));
    assert_eq!(from_hex("000fa0ff7b"), Some(vec![0x00, 0x0f, 0xa0, 0xff, 0x7b]));
    assert_eq!(from_hex("abc"), None);
    assert_eq!(from_hex("zz"), None);
    assert_eq!(from_hex("0g"), None);
    assert_eq!(from_hex("é0"), None);
    let all: Vec<u8> = (0u8..=255).collect();
    assert_eq!(from_hex(&to_hex(&all)), Some(all));
}

#[test]
fn salt_is_stored_as_hex() {
    assert_eq!(Salt::sample().to_hex(), "abababababababababababababababab");
    assert_eq!(
        Salt::from_hex("cdcdcdcdcdcdcdcdcdcdcdcdcdcdcdcd"),
        Some(Salt::sample_other())
    );
    assert_eq!(Salt::from_hex("cdcd"), None);
    assert_eq!(Salt::from_hex("cdcdcdcdcdcdcdcdcdcdcdcdcdcdcdcdcd"), None);
    assert_eq!(Salt::from_hex("not hex at all, not hex at all.."), None);
    let salt = Salt::generate();
    assert_eq!(Salt::from_hex(&salt.to_hex()), Some(salt));
}

#[test]
fn encrypted_app_password_is_stored_as_hex() {
    let encrypted = EncryptedAppPassword::new(vec![0x01, 0xab, 0xff]);
    assert_eq!(encrypted.to_hex(), "01abff");
    assert_eq!(EncryptedAppPassword::from_hex("01ABff"), Some(encrypted));
    assert_eq!(EncryptedAppPassword::from_hex("01abf"), None);
    let sealed = EncryptedAppPassword::new(AesGcm256::encrypt(b"open sesame", key_of(6)));
    let read = EncryptedAppPassword::from_hex(&sealed.to_hex()).unwrap();
    assert_eq!(read.decrypt(key_of(6)).unwrap().expose_secret(), "open sesame");
}
