use super::aes_gcm_256::{max_plaintext_len, AesGcm256};
use super::aes_gcm_sealed_box::{LOWER_BOUND_LEN, NONCE_LEN};
use super::encryption_key::EncryptionKey;
use super::erase::{wipe_bytes, Zeroize};
use super::error::CryptoError;
use super::hex::{from_hex, hex_bytes, hex_text, to_hex};
use super::pb_hkdf::PbHkdfSha256;
use super::salt::Salt;
use super::secret::SecretString;
use vstd::prelude::*;
use vstd::std_specs::cmp::PartialEqSpecImpl;
use vstd::utf8::{decode_utf8, encode_utf8, valid_utf8};

verus! {

/// Calls `String::from_utf8`, which returns the text that the bytes encode
/// where they are valid UTF-8 and an error, here `None`, where they are not.
#[verifier::external_body]
fn text_from_utf8(bytes: Vec<u8>) -> (text: Option<String>)
    ensures
        text is Some <==> valid_utf8(bytes@),
        text is Some ==> encode_utf8(text->Some_0@) == bytes@,
{
    String::from_utf8(bytes).ok()
}

/// The UTF-8 encoding of a text has at most four bytes for each character.
pub proof fn lemma_encoding_length(text: Seq<char>)
    ensures
        encode_utf8(text).len() <= 4 * text.len(),
    decreases text.len(),
{
    if text.len() > 0 {
        vstd::utf8::encode_utf8_first_scalar(text);
        lemma_encoding_length(text.drop_first());
    }
}

/// A text of at most a thousand characters is short enough to encrypt.
pub proof fn lemma_short_text_fits(text: Seq<char>)
    requires
        text.len() <= 1000,
    ensures
        encode_utf8(text).len() <= max_plaintext_len(),
{
    lemma_encoding_length(text);
}

/// The SMTP app password in encrypted form: a nonce, the ciphertext and the
/// authentication tag of one AES-256-GCM encryption.
#[derive(Debug, Hash)]
pub struct EncryptedAppPassword(Vec<u8>);

impl View for EncryptedAppPassword {
    type V = Seq<u8>;

    closed spec fn view(&self) -> Seq<u8> {
        self.0@
    }
}

impl EncryptedAppPassword {
    /// What `decrypt` returns for stored bytes and a key: the error of the
    /// decryption if it fails, `InvalidUtf8` if the plaintext is no text, and
    /// else the text.
    pub open spec fn decrypted(bytes: Seq<u8>, key: Seq<u8>) -> Result<Seq<char>, CryptoError> {
        match AesGcm256::opened(bytes, key) {
            Err(error) => Err(error),
            Ok(plaintext) => if valid_utf8(plaintext) {
                Ok(decode_utf8(plaintext))
            } else {
                Err(CryptoError::InvalidUtf8)
            },
        }
    }

    /// The encrypted password with the given stored bytes.
    pub fn new(bytes: Vec<u8>) -> (encrypted: Self)
        ensures
            encrypted@ == bytes@,
    {
        EncryptedAppPassword(bytes)
    }

    /// The stored bytes: nonce, ciphertext and tag.
    pub fn as_bytes(&self) -> (bytes: &[u8])
        ensures
            bytes@ == self@,
    {
        self.0.as_slice()
    }

    /// The stored bytes as hexadecimal text, the form in which they are
    /// stored.
    pub fn to_hex(&self) -> (text: String)
        ensures
            text@ == hex_text(self@),
            hex_bytes(text@) == Some(self@),
    {
        to_hex(self.0.as_slice())
    }

    /// Reads a stored encrypted password. Whether the bytes are a sealed box
    /// shows only when they are decrypted.
    pub fn from_hex(text: &str) -> (encrypted: Option<Self>)
        ensures
            match encrypted {
                Some(encrypted) => hex_bytes(text@) == Some(encrypted@),
                None => hex_bytes(text@) is None,
            },
    {
        match from_hex(text) {
            Some(bytes) => Some(EncryptedAppPassword(bytes)),
            None => None,
        }
    }

    /// Derives the key of the encryption password and the salt, and encrypts
    /// the app password under it. Decrypting the result with the key of the
    /// same encryption password and salt gives the app password back.
    pub fn new_by_deriving_and_encrypting(
        app_password: SecretString,
        encryption_password: SecretString,
        salt: &Salt,
    ) -> (encrypted: Self)
        requires
            app_password.bytes().len() <= max_plaintext_len(),
        ensures
            exists|nonce: Seq<u8>|
                nonce.len() == NONCE_LEN && encrypted@ == #[trigger] AesGcm256::sealed(
                    app_password.bytes(),
                    PbHkdfSha256::derived_key(encryption_password.bytes(), salt@),
                    nonce,
                ),
            encrypted@.len() == app_password.bytes().len() + LOWER_BOUND_LEN,
            Self::decrypted(
                encrypted@,
                PbHkdfSha256::derived_key(encryption_password.bytes(), salt@),
            ) == Ok::<Seq<char>, CryptoError>(app_password@),
    {
        let encryption_key = PbHkdfSha256::derive_key_from(encryption_password, salt);
        let encrypted = AesGcm256::encrypt(
            app_password.expose_secret().as_bytes(),
            encryption_key,
        );
        proof {
            vstd::utf8::encode_utf8_valid_utf8(app_password@);
            vstd::utf8::encode_utf8_decode_utf8(app_password@);
        }
        EncryptedAppPassword(encrypted)
    }

    /// A sample: the app password "open sesame", encrypted under the
    /// encryption password "encryption password" and the sample salt.
    pub fn sample() -> (encrypted: Self)
        ensures
            Self::decrypted(
                encrypted@,
                PbHkdfSha256::derived_key(
                    encode_utf8("encryption password"@),
                    Seq::new(16, |i: int| 0xabu8),
                ),
            ) == Ok::<Seq<char>, CryptoError>("open sesame"@),
    {
        proof {
            reveal_strlit("open sesame");
            lemma_short_text_fits("open sesame"@);
        }
        Self::new_by_deriving_and_encrypting(
            SecretString::from("open sesame"),
            SecretString::from("encryption password"),
            &Salt::sample(),
        )
    }

    /// Another sample: the app password "super_secret", encrypted under the
    /// encryption password "another encryption password" and the other
    /// sample salt.
    pub fn sample_other() -> (encrypted: Self)
        ensures
            Self::decrypted(
                encrypted@,
                PbHkdfSha256::derived_key(
                    encode_utf8("another encryption password"@),
                    Seq::new(16, |i: int| 0xcdu8),
                ),
            ) == Ok::<Seq<char>, CryptoError>("super_secret"@),
    {
        proof {
            reveal_strlit("super_secret");
            lemma_short_text_fits("super_secret"@);
        }
        Self::new_by_deriving_and_encrypting(
            SecretString::from("super_secret"),
            SecretString::from("another encryption password"),
            &Salt::sample_other(),
        )
    }

    /// Decrypts the app password with an already derived key. A wrong key
    /// and tampered bytes give the same `AesDecryptionFailed`.
    pub fn decrypt(&self, encryption_key: EncryptionKey) -> (app_password: Result<
        SecretString,
        CryptoError,
    >)
        ensures
            match app_password {
                Ok(secret) => Self::decrypted(self@, encryption_key@) == Ok::<
                    Seq<char>,
                    CryptoError,
                >(secret@),
                Err(error) => Self::decrypted(self@, encryption_key@) == Err::<
                    Seq<char>,
                    CryptoError,
                >(error),
            },
    {
        match AesGcm256::decrypt(self.0.as_slice(), encryption_key) {
            Err(error) => Err(error),
            Ok(plaintext) => {
                match text_from_utf8(plaintext) {
                    Some(text) => {
                        proof {
                            vstd::utf8::encode_utf8_decode_utf8(text@);
                        }
                        Ok(SecretString::new(text))
                    },
                    None => Err(CryptoError::InvalidUtf8),
                }
            },
        }
    }
}

impl Clone for EncryptedAppPassword {
    fn clone(&self) -> (copy: Self)
        ensures
            copy@ == self@,
    {
        EncryptedAppPassword(self.0.clone())
    }
}

impl PartialEq for EncryptedAppPassword {
    fn eq(&self, other: &Self) -> (equal: bool) {
        let equal = self.0 == other.0;
        proof {
            if equal {
                assert(self.0@ =~= other.0@);
            }
        }
        equal
    }
}

impl Eq for EncryptedAppPassword {

}

impl PartialEqSpecImpl for EncryptedAppPassword {
    open spec fn obeys_eq_spec() -> bool {
        true
    }

    open spec fn eq_spec(&self, other: &Self) -> bool {
        self@ == other@
    }
}

impl Zeroize for EncryptedAppPassword {
    open spec fn is_zeroized(&self) -> bool {
        self@.len() == 0
    }

    fn zeroize(&mut self) {
        wipe_bytes(&mut self.0);
    }
}

impl Drop for EncryptedAppPassword {
    /// Calls `zeroize::Zeroize::zeroize` on the stored bytes.
    #[verifier::external_body]
    fn drop(&mut self)
        opens_invariants none
        no_unwind
    {
        ::zeroize::Zeroize::zeroize(&mut self.0)
    }
}

} // verus!
