use super::erase::{wipe_string, Zeroize};
use vstd::prelude::*;
use vstd::std_specs::convert::FromSpecImpl;
use vstd::string::StringExecFns;

verus! {

/// A secret text, such as a password. It is never compared with `==`, is
/// read only through `expose_secret`, and is zeroed when it is dropped.
pub struct SecretString {
    text: String,
}

impl View for SecretString {
    type V = Seq<char>;

    closed spec fn view(&self) -> Seq<char> {
        self.text@
    }
}

impl SecretString {
    /// Wraps a text as a secret.
    pub fn new(text: String) -> (secret: Self)
        ensures
            secret@ == text@,
    {
        SecretString { text }
    }

    /// The secret text itself.
    pub fn expose_secret(&self) -> (text: &str)
        ensures
            text@ == self@,
    {
        self.text.as_str()
    }

    /// The UTF-8 encoding of the secret text.
    pub open spec fn bytes(&self) -> Seq<u8> {
        vstd::utf8::encode_utf8(self@)
    }

    /// Whether two secrets hold the same text.
    pub fn same_secret(&self, other: &SecretString) -> (same: bool)
        ensures
            same == (self@ == other@),
    {
        self.text == other.text
    }
}

impl Clone for SecretString {
    fn clone(&self) -> (copy: Self)
        ensures
            copy@ == self@,
    {
        SecretString { text: self.text.clone() }
    }
}

impl From<String> for SecretString {
    fn from(text: String) -> (secret: Self)
        ensures
            secret@ == text@,
    {
        SecretString { text }
    }
}

impl FromSpecImpl<String> for SecretString {
    open spec fn obeys_from_spec() -> bool {
        true
    }

    closed spec fn from_spec(text: String) -> Self {
        SecretString { text }
    }
}

impl<'a> From<&'a str> for SecretString {
    fn from(text: &'a str) -> (secret: Self)
        ensures
            secret@ == text@,
    {
        SecretString { text: String::from_str(text) }
    }
}

impl<'a> FromSpecImpl<&'a str> for SecretString {
    open spec fn obeys_from_spec() -> bool {
        false
    }

    closed spec fn from_spec(text: &'a str) -> Self {
        arbitrary()
    }
}

impl Zeroize for SecretString {
    open spec fn is_zeroized(&self) -> bool {
        self@.len() == 0
    }

    fn zeroize(&mut self) {
        wipe_string(&mut self.text);
    }
}

impl Drop for SecretString {
    /// Calls `zeroize::Zeroize::zeroize` on the text of the secret.
    #[verifier::external_body]
    fn drop(&mut self)
        opens_invariants none
        no_unwind
    {
        ::zeroize::Zeroize::zeroize(&mut self.text)
    }
}

} // verus!
