use super::encryption_key::EncryptionKey;
use super::salt::Salt;
use super::secret::SecretString;
use vstd::prelude::*;

verus! {

/// What `pbkdf2::pbkdf2_hmac_array` with SHA-256 and 32 bytes of output
/// returns for a password, a salt and a number of rounds.
pub uninterp spec fn pbkdf2_hmac_sha256(password: Seq<u8>, salt: Seq<u8>, rounds: u32) -> Seq<u8>;

/// What HKDF with SHA-256 (`hkdf::Hkdf::new` and then `expand`) writes into
/// 32 bytes of output for a salt, input key material and an info string.
pub uninterp spec fn hkdf_sha256(salt: Seq<u8>, ikm: Seq<u8>, info: Seq<u8>) -> Seq<u8>;

/// Calls `pbkdf2::pbkdf2_hmac_array::<sha2::Sha256, 32>`, which computes
/// PBKDF2 with HMAC-SHA-256 and depends on its arguments alone. HMAC takes a
/// key of any length, so the call does not fail.
#[verifier::external_body]
fn stretch(password: &[u8], salt: &[u8], rounds: u32) -> (stretched: [u8; 32])
    ensures
        stretched@ == pbkdf2_hmac_sha256(password@, salt@, rounds),
{
    ::pbkdf2::pbkdf2_hmac_array::<::sha2::Sha256, 32>(password, salt, rounds)
}

/// Calls `hkdf::Hkdf::<sha2::Sha256>::new` with the salt and the input key
/// material, and `expand` with the info string into 32 bytes. The result
/// depends on the arguments alone; `expand` fails only for an output longer
/// than 255 hashes.
#[verifier::external_body]
fn expand(salt: &[u8], ikm: &[u8], info: &[u8]) -> (okm: [u8; 32])
    ensures
        okm@ == hkdf_sha256(salt@, ikm@, info@),
{
    let mut okm = [0u8; 32];
    ::hkdf::Hkdf::<::sha2::Sha256>::new(Some(salt), ikm)
        .expand(info, &mut okm)
        .expect("32 bytes is a valid length for HKDF-SHA256 output");
    okm
}

/// Key derivation in two stages: the password is stretched by PBKDF2 with
/// HMAC-SHA-256, and the stretched material is expanded by HKDF-SHA-256 into
/// the 32 bytes of an `EncryptionKey`.
pub struct PbHkdfSha256;

impl PbHkdfSha256 {
    /// The number of PBKDF2 rounds: the number recommended for
    /// PBKDF2-HMAC-SHA-256 by OWASP's password storage guidance.
    pub const ROUNDS: u32 = 600_000;

    /// The info string that binds the expanded key to its purpose.
    pub open spec fn info() -> Seq<u8> {
        vstd::utf8::encode_utf8("smtp app password encryption key"@)
    }

    /// The key that a password, given by its UTF-8 bytes, and a salt derive.
    pub open spec fn derived_key(password: Seq<u8>, salt: Seq<u8>) -> Seq<u8> {
        hkdf_sha256(salt, pbkdf2_hmac_sha256(password, salt, Self::ROUNDS), Self::info())
    }

    /// Key derivation is deterministic: the same password and the same salt
    /// derive the same key.
    pub proof fn lemma_same_inputs_same_key(
        first_password: Seq<u8>,
        first_salt: Seq<u8>,
        second_password: Seq<u8>,
        second_salt: Seq<u8>,
    )
        requires
            first_password == second_password,
            first_salt == second_salt,
        ensures
            Self::derived_key(first_password, first_salt) == Self::derived_key(
                second_password,
                second_salt,
            ),
    {
    }

    /// Derives the encryption key of a password and a salt. The same password
    /// and salt always give the same key.
    pub fn derive_key_from(encryption_password: SecretString, salt: &Salt) -> (key: EncryptionKey)
        ensures
            key@ == Self::derived_key(encryption_password.bytes(), salt@),
    {
        let info = "smtp app password encryption key";
        let mut stretched = stretch(
            encryption_password.expose_secret().as_bytes(),
            salt.as_bytes().as_slice(),
            Self::ROUNDS,
        );
        let okm = expand(salt.as_bytes().as_slice(), stretched.as_slice(), info.as_bytes());
        super::erase::wipe_array(&mut stretched);
        EncryptionKey::new(okm)
    }
}

} // verus!
