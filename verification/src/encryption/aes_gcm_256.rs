use super::aes_gcm_sealed_box::{AesGcmSealedBox, AesNonce, LOWER_BOUND_LEN, NONCE_LEN};
use super::encryption_key::EncryptionKey;
use super::erase::random_bytes;
use super::error::CryptoError;
use vstd::prelude::*;

verus! {

/// The ciphertext and tag that `aead::Aead::encrypt` of `aes_gcm::Aes256Gcm`
/// returns for a key, a nonce and a plaintext, without associated data.
pub uninterp spec fn aes256_gcm_seal(key: Seq<u8>, nonce: Seq<u8>, plaintext: Seq<u8>) -> Seq<u8>;

/// The plaintext that `aead::Aead::decrypt` of `aes_gcm::Aes256Gcm` returns
/// for a key, a nonce and a ciphertext with its tag, or `None` where it
/// returns an error.
pub uninterp spec fn aes256_gcm_open(key: Seq<u8>, nonce: Seq<u8>, sealed: Seq<u8>) -> Option<
    Seq<u8>,
>;

/// The longest plaintext that AES-GCM encrypts, in bytes.
pub const MAX_PLAINTEXT_LEN: u64 = 0xf_ffff_ffe0;

/// The longest plaintext that AES-GCM encrypts, in bytes.
pub open spec fn max_plaintext_len() -> int {
    MAX_PLAINTEXT_LEN as int
}

/// Calls `aes_gcm::Aes256Gcm::new` with the key and `aead::Aead::encrypt`
/// with the nonce and the plaintext. The call fails only for a plaintext
/// longer than `aes_gcm::P_MAX`. It returns the ciphertext, as long as the
/// plaintext, followed by a tag of sixteen bytes, and `decrypt` with the same
/// key and nonce gives the plaintext back.
#[verifier::external_body]
fn seal_bytes(key: &[u8; 32], nonce: &[u8; 12], plaintext: &[u8]) -> (sealed: Vec<u8>)
    requires
        plaintext@.len() <= max_plaintext_len(),
    ensures
        sealed@ == aes256_gcm_seal(key@, nonce@, plaintext@),
        sealed@.len() == plaintext@.len() + 16,
        aes256_gcm_open(key@, nonce@, sealed@) == Some(plaintext@),
{
    let cipher = <::aes_gcm::Aes256Gcm as ::aes_gcm::KeyInit>::new(&(*key).into());
    ::aes_gcm::aead::Aead::encrypt(&cipher, &(*nonce).into(), plaintext).expect(
        "the plaintext is no longer than AES-GCM allows",
    )
}

/// Calls `aes_gcm::Aes256Gcm::new` with the key and `aead::Aead::decrypt`
/// with the nonce and the ciphertext. An error of the call becomes `None`.
/// A plaintext that comes back is shorter than the input by the tag.
#[verifier::external_body]
fn open_bytes(key: &[u8; 32], nonce: &[u8; 12], sealed: &[u8]) -> (plaintext: Option<Vec<u8>>)
    ensures
        match plaintext {
            Some(bytes) => aes256_gcm_open(key@, nonce@, sealed@) == Some(bytes@) && bytes@.len()
                + 16 == sealed@.len(),
            None => aes256_gcm_open(key@, nonce@, sealed@) is None,
        },
{
    let cipher = <::aes_gcm::Aes256Gcm as ::aes_gcm::KeyInit>::new(&(*key).into());
    ::aes_gcm::aead::Aead::decrypt(&cipher, &(*nonce).into(), sealed).ok()
}

/// Authenticated encryption with AES-256-GCM.
pub struct AesGcm256;

impl AesGcm256 {
    /// What `decrypt` returns for stored bytes and a key: the error of a
    /// sealed box that is too short, else the plaintext that AES-GCM opens,
    /// else the one error that stands for every failed authentication.
    pub open spec fn opened(bytes: Seq<u8>, key: Seq<u8>) -> Result<Seq<u8>, CryptoError> {
        match AesGcmSealedBox::parsed(bytes) {
            Err(error) => Err(error),
            Ok((nonce, cipher_text)) => match aes256_gcm_open(key, nonce, cipher_text) {
                Some(plaintext) => Ok(plaintext),
                None => Err(CryptoError::AesDecryptionFailed),
            },
        }
    }

    /// The stored bytes that encrypting a plaintext under a key with a given
    /// nonce produces: the nonce, the ciphertext and the tag.
    pub open spec fn sealed(plaintext: Seq<u8>, key: Seq<u8>, nonce: Seq<u8>) -> Seq<u8> {
        nonce + aes256_gcm_seal(key, nonce, plaintext)
    }

    /// Decryption fails closed: stored bytes that are long enough either
    /// decrypt to a plaintext or fail with `AesDecryptionFailed`, whatever
    /// the key; no other error tells a wrong key from tampered bytes.
    pub proof fn lemma_decryption_fails_closed(bytes: Seq<u8>, key: Seq<u8>)
        requires
            bytes.len() >= LOWER_BOUND_LEN,
        ensures
            Self::opened(bytes, key) is Ok || Self::opened(bytes, key) == Err::<
                Seq<u8>,
                CryptoError,
            >(CryptoError::AesDecryptionFailed),
    {
    }

    /// Stored bytes that are too short are rejected with their length,
    /// whatever the key.
    pub proof fn lemma_short_bytes_are_rejected(bytes: Seq<u8>, key: Seq<u8>)
        requires
            bytes.len() < LOWER_BOUND_LEN,
        ensures
            Self::opened(bytes, key) == Err::<Seq<u8>, CryptoError>(
                CryptoError::InvalidAesBytesTooShort {
                    expected_at_least: LOWER_BOUND_LEN,
                    found: bytes.len() as usize,
                },
            ),
    {
    }

    /// Encrypts the plaintext under the key with the given nonce.
    fn seal(plaintext: &[u8], key: &EncryptionKey, nonce: AesNonce) -> (sealed: AesGcmSealedBox)
        requires
            plaintext@.len() <= max_plaintext_len(),
        ensures
            sealed.nonce@ == nonce@,
            sealed.cipher_text@ == aes256_gcm_seal(key@, nonce@, plaintext@),
            sealed.cipher_text@.len() == plaintext@.len() + 16,
            aes256_gcm_open(key@, nonce@, sealed.cipher_text@) == Some(plaintext@),
    {
        let cipher_text = seal_bytes(key.as_bytes(), &nonce.0, plaintext);
        AesGcmSealedBox { nonce, cipher_text }
    }

    /// Decrypts a sealed box with the key. Authentication and decryption are
    /// one step, and every failure is the same error.
    fn open(sealed: &AesGcmSealedBox, key: &EncryptionKey) -> (plaintext: Result<
        Vec<u8>,
        CryptoError,
    >)
        ensures
            match plaintext {
                Ok(bytes) => aes256_gcm_open(key@, sealed.nonce@, sealed.cipher_text@) == Some(
                    bytes@,
                ),
                Err(error) => error == CryptoError::AesDecryptionFailed && aes256_gcm_open(
                    key@,
                    sealed.nonce@,
                    sealed.cipher_text@,
                ) is None,
            },
    {
        match open_bytes(key.as_bytes(), &sealed.nonce.0, sealed.cipher_text.as_slice()) {
            Some(bytes) => Ok(bytes),
            None => Err(CryptoError::AesDecryptionFailed),
        }
    }

    /// Encrypts the plaintext under the key. The nonce is drawn afresh from a
    /// cryptographically secure random generator at every call and is never
    /// taken from the caller. The result is the nonce followed by the
    /// ciphertext and the tag, and `decrypt` with the same key gives the
    /// plaintext back.
    pub fn encrypt(plaintext: &[u8], encryption_key: EncryptionKey) -> (bytes: Vec<u8>)
        requires
            plaintext@.len() <= max_plaintext_len(),
        ensures
            exists|nonce: Seq<u8>|
                nonce.len() == NONCE_LEN && bytes@ == #[trigger] Self::sealed(
                    plaintext@,
                    encryption_key@,
                    nonce,
                ),
            bytes@.len() == plaintext@.len() + LOWER_BOUND_LEN,
            Self::opened(bytes@, encryption_key@) == Ok::<Seq<u8>, CryptoError>(plaintext@),
    {
        let nonce = AesNonce(random_bytes::<12>());
        let sealed = Self::seal(plaintext, &encryption_key, nonce);
        let bytes = sealed.combined();
        proof {
            assert(bytes@ == Self::sealed(plaintext@, encryption_key@, nonce@));
        }
        bytes
    }

    /// Decrypts stored bytes with the key. Bytes too few for a nonce and a
    /// tag are rejected first; after that the plaintext comes back exactly
    /// where AES-GCM authenticates the bytes under the key, and
    /// `AesDecryptionFailed` in every other case.
    pub fn decrypt(cipher_text: &[u8], decryption_key: EncryptionKey) -> (plaintext: Result<
        Vec<u8>,
        CryptoError,
    >)
        ensures
            match plaintext {
                Ok(bytes) => Self::opened(cipher_text@, decryption_key@) == Ok::<
                    Seq<u8>,
                    CryptoError,
                >(bytes@),
                Err(error) => Self::opened(cipher_text@, decryption_key@) == Err::<
                    Seq<u8>,
                    CryptoError,
                >(error),
            },
    {
        match AesGcmSealedBox::try_from(cipher_text) {
            Err(error) => Err(error),
            Ok(sealed) => Self::open(&sealed, &decryption_key),
        }
    }
}

} // verus!
