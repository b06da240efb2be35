use super::bytes::arrays_equal;
use super::hex::{from_hex, hex_bytes, hex_text, to_hex};
use super::erase::{random_bytes, wipe_array, zero_bytes, Zeroize};
use vstd::prelude::*;
use vstd::std_specs::cmp::PartialEqSpecImpl;
use vstd::std_specs::convert::FromSpecImpl;

verus! {

/// A random salt for key derivation: public, and stored beside the
/// ciphertext. Its bytes are zeroed when it is dropped.
#[derive(Debug, Hash)]
pub struct Salt([u8; 16]);

impl View for Salt {
    type V = Seq<u8>;

    closed spec fn view(&self) -> Seq<u8> {
        self.0@
    }
}

impl Salt {
    /// The number of bytes of a salt.
    pub const LEN: usize = 16;

    /// Every salt has sixteen bytes.
    pub proof fn lemma_len(&self)
        ensures
            self@.len() == 16,
    {
    }

    /// Draws a fresh salt from a cryptographically secure random generator.
    pub fn generate() -> (salt: Self)
        ensures
            salt@.len() == 16,
    {
        Salt(random_bytes::<16>())
    }

    /// The salt with the given bytes. Any sixteen bytes are accepted.
    pub fn new(bytes: [u8; 16]) -> (salt: Self)
        ensures
            salt@ == bytes@,
    {
        Salt(bytes)
    }

    /// The bytes of the salt.
    pub fn as_bytes(&self) -> (bytes: &[u8; 16])
        ensures
            bytes@ == self@,
    {
        &self.0
    }

    /// What `from_hex` returns for a text: the sixteen bytes that the text
    /// stands for, and `None` where it stands for no bytes or for another
    /// number of them.
    pub open spec fn parsed_hex(text: Seq<char>) -> Option<Seq<u8>> {
        match hex_bytes(text) {
            Some(bytes) if bytes.len() == 16 => Some(bytes),
            _ => None,
        }
    }

    /// The salt as hexadecimal text, the form in which it is stored.
    pub fn to_hex(&self) -> (text: String)
        ensures
            text@ == hex_text(self@),
            Self::parsed_hex(text@) == Some(self@),
    {
        to_hex(self.0.as_slice())
    }

    /// Reads a stored salt. Any sixteen bytes are accepted.
    pub fn from_hex(text: &str) -> (salt: Option<Self>)
        ensures
            match salt {
                Some(salt) => Self::parsed_hex(text@) == Some(salt@),
                None => Self::parsed_hex(text@) is None,
            },
    {
        match from_hex(text) {
            None => None,
            Some(read) => {
                if read.len() != 16 {
                    return None;
                }
                let mut bytes = [0u8; 16];
                let mut i: usize = 0;
                while i < 16
                    invariant
                        i <= 16,
                        read@.len() == 16,
                        forall|j: int| 0 <= j < i ==> bytes@[j] == read@[j],
                    decreases 16 - i,
                {
                    bytes[i] = read[i];
                    i += 1;
                }
                assert(bytes@ =~= read@);
                Some(Salt(bytes))
            },
        }
    }

    /// A sample value, for examples and tests.
    pub fn sample() -> (salt: Self)
        ensures
            salt@ == Seq::new(16, |i: int| 0xabu8),
    {
        let salt = Salt([0xab; 16]);
        assert(salt@ =~= Seq::new(16, |i: int| 0xabu8));
        salt
    }

    /// A second sample value, different from `sample`.
    pub fn sample_other() -> (salt: Self)
        ensures
            salt@ == Seq::new(16, |i: int| 0xcdu8),
    {
        let salt = Salt([0xcd; 16]);
        assert(salt@ =~= Seq::new(16, |i: int| 0xcdu8));
        salt
    }
}

/// Whether two salts hold the same bytes.
pub fn same_salt(left: &Salt, right: &Salt) -> (same: bool)
    ensures
        same == (left@ == right@),
{
    arrays_equal(&left.0, &right.0)
}

impl PartialEq for Salt {
    fn eq(&self, other: &Self) -> (equal: bool) {
        same_salt(self, other)
    }
}

impl Eq for Salt {

}

impl PartialEqSpecImpl for Salt {
    open spec fn obeys_eq_spec() -> bool {
        true
    }

    open spec fn eq_spec(&self, other: &Self) -> bool {
        self@ == other@
    }
}

impl From<[u8; 16]> for Salt {
    fn from(bytes: [u8; 16]) -> (salt: Self)
        ensures
            salt@ == bytes@,
    {
        Salt(bytes)
    }
}

impl FromSpecImpl<[u8; 16]> for Salt {
    open spec fn obeys_from_spec() -> bool {
        true
    }

    closed spec fn from_spec(bytes: [u8; 16]) -> Self {
        Salt(bytes)
    }
}

impl Clone for Salt {
    fn clone(&self) -> (copy: Self)
        ensures
            copy@ == self@,
    {
        Salt(self.0)
    }
}

impl Zeroize for Salt {
    open spec fn is_zeroized(&self) -> bool {
        self@ == zero_bytes(16)
    }

    fn zeroize(&mut self) {
        wipe_array(&mut self.0);
    }
}

impl Drop for Salt {
    /// Calls `zeroize::Zeroize::zeroize` on the bytes of the salt.
    #[verifier::external_body]
    fn drop(&mut self)
        opens_invariants none
        no_unwind
    {
        ::zeroize::Zeroize::zeroize(&mut self.0)
    }
}

} // verus!
