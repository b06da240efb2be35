use super::bytes::arrays_equal;
use super::erase::{wipe_array, zero_bytes, Zeroize};
use vstd::prelude::*;
use vstd::std_specs::cmp::PartialEqSpecImpl;
use vstd::std_specs::convert::FromSpecImpl;

verus! {

/// A 32-byte symmetric key for AES-256-GCM. It lives in memory only, has no
/// textual form, and is zeroed when it is dropped.
#[derive(Hash)]
pub struct EncryptionKey(pub [u8; 32]);

impl View for EncryptionKey {
    type V = Seq<u8>;

    open spec fn view(&self) -> Seq<u8> {
        self.0@
    }
}

impl EncryptionKey {
    /// The key with the given bytes.
    pub fn new(bytes: [u8; 32]) -> (key: Self)
        ensures
            key@ == bytes@,
    {
        EncryptionKey(bytes)
    }

    /// The bytes of the key.
    pub fn as_bytes(&self) -> (bytes: &[u8; 32])
        ensures
            bytes@ == self@,
    {
        &self.0
    }
}

impl From<[u8; 32]> for EncryptionKey {
    fn from(bytes: [u8; 32]) -> (key: Self) {
        EncryptionKey(bytes)
    }
}

impl FromSpecImpl<[u8; 32]> for EncryptionKey {
    open spec fn obeys_from_spec() -> bool {
        true
    }

    open spec fn from_spec(bytes: [u8; 32]) -> Self {
        EncryptionKey(bytes)
    }
}

impl Clone for EncryptionKey {
    fn clone(&self) -> (copy: Self)
        ensures
            copy@ == self@,
    {
        EncryptionKey(self.0)
    }
}

impl PartialEq for EncryptionKey {
    fn eq(&self, other: &Self) -> (equal: bool) {
        arrays_equal(&self.0, &other.0)
    }
}

impl Eq for EncryptionKey {

}

impl PartialEqSpecImpl for EncryptionKey {
    open spec fn obeys_eq_spec() -> bool {
        true
    }

    open spec fn eq_spec(&self, other: &Self) -> bool {
        self@ == other@
    }
}

impl Zeroize for EncryptionKey {
    open spec fn is_zeroized(&self) -> bool {
        self@ == zero_bytes(32)
    }

    fn zeroize(&mut self) {
        wipe_array(&mut self.0);
    }
}

impl Drop for EncryptionKey {
    /// Calls `zeroize::Zeroize::zeroize` on the bytes of the key.
    #[verifier::external_body]
    fn drop(&mut self)
        opens_invariants none
        no_unwind
    {
        ::zeroize::Zeroize::zeroize(&mut self.0)
    }
}

} // verus!
