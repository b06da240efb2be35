use vstd::prelude::*;
use vstd::std_specs::cmp::PartialEqSpecImpl;

verus! {

/// Why a text is not an email address.
#[derive(Debug, Clone, Copy, PartialEq, Eq, Structural)]
pub enum EmailAddressError {
    /// The user or the domain is missing.
    MissingParts,
    /// The user part is invalid.
    InvalidUser,
    /// The domain part is invalid.
    InvalidDomain,
    /// The text is refused for another reason.
    Other,
}

/// What `lettre::Address::from_str` decides for a text: `Ok` where it parses
/// as an address, and else the reason why not.
pub uninterp spec fn address_check(text: Seq<char>) -> Result<(), EmailAddressError>;

/// Calls `lettre::Address::from_str`, which validates the user and the domain
/// of the text and depends on the text alone. The address it builds holds the
/// very text, so only the verdict is handed on. The three errors that the
/// validation gives keep their kind; any other error of the outside type
/// becomes `Other`.
#[verifier::external_body]
fn check_address(text: &str) -> (verdict: Result<(), EmailAddressError>)
    ensures
        verdict == address_check(text@),
{
    match <::lettre::Address as core::str::FromStr>::from_str(text) {
        Ok(_) => Ok(()),
        Err(::lettre::address::AddressError::MissingParts) => Err(EmailAddressError::MissingParts),
        Err(::lettre::address::AddressError::InvalidUser) => Err(EmailAddressError::InvalidUser),
        Err(::lettre::address::AddressError::InvalidDomain) => Err(EmailAddressError::InvalidDomain),
        Err(_) => Err(EmailAddressError::Other),
    }
}

/// An email address, held as its text.
#[derive(Debug, Hash)]
pub struct EmailAddress {
    text: String,
}

impl View for EmailAddress {
    type V = Seq<char>;

    closed spec fn view(&self) -> Seq<char> {
        self.text@
    }
}

impl EmailAddressError {
    /// The text of the message that describes this error.
    pub open spec fn message(&self) -> Seq<char> {
        match *self {
            EmailAddressError::MissingParts => "Missing domain or user"@,
            EmailAddressError::InvalidUser => "Invalid email user"@,
            EmailAddressError::InvalidDomain => "Invalid email domain"@,
            EmailAddressError::Other => "Invalid email address"@,
        }
    }

    /// Renders the message of this error.
    pub fn to_string(&self) -> (text: String)
        ensures
            text@ == self.message(),
    {
        match self {
            EmailAddressError::MissingParts => "Missing domain or user".to_owned(),
            EmailAddressError::InvalidUser => "Invalid email user".to_owned(),
            EmailAddressError::InvalidDomain => "Invalid email domain".to_owned(),
            EmailAddressError::Other => "Invalid email address".to_owned(),
        }
    }
}

impl EmailAddress {
    /// Parses the text as an email address. The address holds the text
    /// unchanged.
    pub fn from_str(text: &str) -> (parsed: Result<Self, EmailAddressError>)
        ensures
            match parsed {
                Ok(address) => address@ == text@ && address_check(text@) is Ok,
                Err(error) => address_check(text@) == Err::<(), EmailAddressError>(error),
            },
    {
        match check_address(text) {
            Ok(()) => Ok(EmailAddress { text: text.to_owned() }),
            Err(error) => Err(error),
        }
    }

    /// The text of the address.
    pub fn as_str(&self) -> (text: &str)
        ensures
            text@ == self@,
    {
        self.text.as_str()
    }

    /// The text of the address, as the address is displayed.
    pub fn to_string(&self) -> (text: String)
        ensures
            text@ == self@,
    {
        self.text.clone()
    }

    /// A sample value, for examples and tests.
    pub fn sample() -> (address: Self)
        ensures
            address@ == "alice@example.com"@,
    {
        Self::sample_alice()
    }

    /// A second sample value, different from `sample`.
    pub fn sample_other() -> (address: Self)
        ensures
            address@ == "bob@example.com"@,
    {
        Self::sample_bob()
    }

    /// The sample value of Alice.
    pub fn sample_alice() -> (address: Self)
        ensures
            address@ == "alice@example.com"@,
    {
        EmailAddress { text: "alice@example.com".to_owned() }
    }

    /// The sample value of Bob.
    pub fn sample_bob() -> (address: Self)
        ensures
            address@ == "bob@example.com"@,
    {
        EmailAddress { text: "bob@example.com".to_owned() }
    }

    /// The sample value of Carol.
    pub fn sample_carol() -> (address: Self)
        ensures
            address@ == "carol@example.com"@,
    {
        EmailAddress { text: "carol@example.com".to_owned() }
    }

    /// The sample value of Dave.
    pub fn sample_dave() -> (address: Self)
        ensures
            address@ == "dave@example.com"@,
    {
        EmailAddress { text: "dave@example.com".to_owned() }
    }

    /// The sample value of Erin.
    pub fn sample_erin() -> (address: Self)
        ensures
            address@ == "erin@example.com"@,
    {
        EmailAddress { text: "erin@example.com".to_owned() }
    }
}

impl Clone for EmailAddress {
    fn clone(&self) -> (copy: Self)
        ensures
            copy@ == self@,
    {
        EmailAddress { text: self.text.clone() }
    }
}

impl PartialEq for EmailAddress {
    fn eq(&self, other: &Self) -> (equal: bool) {
        self.text == other.text
    }
}

impl Eq for EmailAddress {

}

impl PartialEqSpecImpl for EmailAddress {
    open spec fn obeys_eq_spec() -> bool {
        true
    }

    open spec fn eq_spec(&self, other: &Self) -> bool {
        self@ == other@
    }
}

} // verus!
