use mejla::CryptoError;

#[test]
fn display_for_invalid_utf8() {
    let error = CryptoError::InvalidUtf8;
    assert_eq!(
        error.to_string(),
        "Failed to parse string into a valid UTF-8 string"
    );
}

#[test]
fn display_for_aes_decryption_failed() {
    let error = CryptoError::AesDecryptionFailed;
    assert_eq!(error.to_string(), "Failed to decrypt data with AES");
}

#[test]
fn display_for_invalid_aes_bytes_too_short() {
    let error = CryptoError::InvalidAesBytesTooShort {
        expected_at_least: 32,
        found: 7,
    };
    assert_eq!(
        error.to_string(),
        "Invalid AES bytes, expected at least 32 bytes, but found 7 bytes"
    );
}
