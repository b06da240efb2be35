use super::error::CryptoError;
use vstd::prelude::*;
use vstd::slice::{slice_subrange, slice_to_vec};

verus! {

/// The nonce of one AES-GCM encryption: twelve bytes, drawn afresh for every
/// encryption and safe to store beside the ciphertext.
#[derive(Clone, Copy, Debug)]
pub struct AesNonce(pub [u8; 12]);

impl View for AesNonce {
    type V = Seq<u8>;

    open spec fn view(&self) -> Seq<u8> {
        self.0@
    }
}

/// A nonce together with the ciphertext and authentication tag that were
/// made with it.
#[derive(Debug)]
pub struct AesGcmSealedBox {
    /// The nonce of the encryption.
    pub nonce: AesNonce,
    /// The ciphertext, followed by the authentication tag.
    pub cipher_text: Vec<u8>,
}

/// The number of bytes of an authentication tag.
pub const AUTH_TAG_LEN: usize = 16;

/// The number of bytes of a nonce.
pub const NONCE_LEN: usize = 12;

/// The least number of bytes of a sealed box: a nonce and a tag.
pub const LOWER_BOUND_LEN: usize = NONCE_LEN + AUTH_TAG_LEN;

impl AesGcmSealedBox {
    /// The nonce followed by the ciphertext and tag, as the box is stored.
    pub open spec fn spec_combined(&self) -> Seq<u8> {
        self.nonce@ + self.cipher_text@
    }

    /// What `try_from` returns for a sequence of bytes: an error for fewer
    /// bytes than a nonce and a tag, else the first twelve bytes as the nonce
    /// and the rest as ciphertext and tag.
    pub open spec fn parsed(bytes: Seq<u8>) -> Result<(Seq<u8>, Seq<u8>), CryptoError> {
        if bytes.len() < LOWER_BOUND_LEN {
            Err(
                CryptoError::InvalidAesBytesTooShort {
                    expected_at_least: LOWER_BOUND_LEN,
                    found: bytes.len() as usize,
                },
            )
        } else {
            Ok((bytes.subrange(0, NONCE_LEN as int), bytes.subrange(NONCE_LEN as int, bytes.len() as int)))
        }
    }

    /// Joins the nonce and the ciphertext into the stored form.
    pub fn combined(&self) -> (bytes: Vec<u8>)
        ensures
            bytes@ == self.spec_combined(),
            Self::parsed(bytes@) is Ok ==> Self::parsed(bytes@) == Ok::<
                (Seq<u8>, Seq<u8>),
                CryptoError,
            >((self.nonce@, self.cipher_text@)),
    {
        let mut bytes: Vec<u8> = slice_to_vec(self.nonce.0.as_slice());
        bytes.extend_from_slice(self.cipher_text.as_slice());
        proof {
            let joined = self.nonce@ + self.cipher_text@;
            assert(bytes@ =~= joined);
            assert(joined.subrange(0, NONCE_LEN as int) =~= self.nonce@);
            assert(joined.subrange(NONCE_LEN as int, joined.len() as int) =~= self.cipher_text@);
        }
        bytes
    }

    /// Splits stored bytes into a nonce and the ciphertext with its tag.
    /// Fewer bytes than a nonce and a tag are rejected before any
    /// cryptographic operation.
    pub fn try_from(bytes: &[u8]) -> (parsed: Result<Self, CryptoError>)
        ensures
            match parsed {
                Ok(sealed) => Self::parsed(bytes@) == Ok::<(Seq<u8>, Seq<u8>), CryptoError>(
                    (sealed.nonce@, sealed.cipher_text@),
                ),
                Err(error) => Self::parsed(bytes@) == Err::<(Seq<u8>, Seq<u8>), CryptoError>(error),
            },
    {
        if bytes.len() < LOWER_BOUND_LEN {
            return Err(
                CryptoError::InvalidAesBytesTooShort {
                    expected_at_least: LOWER_BOUND_LEN,
                    found: bytes.len(),
                },
            );
        }
        let mut nonce = [0u8; 12];
        let mut i: usize = 0;
        while i < NONCE_LEN
            invariant
                i <= NONCE_LEN,
                bytes@.len() >= LOWER_BOUND_LEN,
                forall|j: int| 0 <= j < i ==> nonce@[j] == bytes@[j],
            decreases NONCE_LEN - i,
        {
            nonce[i] = bytes[i];
            i += 1;
        }
        let cipher_text = slice_to_vec(slice_subrange(bytes, NONCE_LEN, bytes.len()));
        assert(nonce@ =~= bytes@.subrange(0, NONCE_LEN as int));
        Ok(AesGcmSealedBox { nonce: AesNonce(nonce), cipher_text })
    }
}

} // verus!
