use super::email_address::EmailAddress;
use vstd::prelude::*;
use vstd::std_specs::cmp::PartialEqSpecImpl;

verus! {

/// A named sender and an email address.
#[derive(Debug, Hash)]
pub struct EmailAccount {
    name: String,
    email: EmailAddress,
}

impl View for EmailAccount {
    type V = (Seq<char>, Seq<char>);

    /// The name and the text of the address.
    closed spec fn view(&self) -> (Seq<char>, Seq<char>) {
        (self.name@, self.email@)
    }
}

impl EmailAccount {
    /// The account with the given name and address.
    pub fn new(name: String, email: EmailAddress) -> (account: Self)
        ensures
            account@ == (name@, email@),
    {
        EmailAccount { name, email }
    }

    /// The name.
    pub fn name(&self) -> (name: &String)
        ensures
            name@ == self@.0,
    {
        &self.name
    }

    /// The email address.
    pub fn email(&self) -> (email: &EmailAddress)
        ensures
            email@ == self@.1,
    {
        &self.email
    }

    /// A sample value, for examples and tests.
    pub fn sample() -> (account: Self)
        ensures
            account@ == ("Alice Smith"@, "alice@example.com"@),
    {
        Self::sample_alice()
    }

    /// A second sample value, different from `sample`.
    pub fn sample_other() -> (account: Self)
        ensures
            account@ == ("Bob Johnson"@, "bob@example.com"@),
    {
        Self::sample_bob()
    }

    /// The sample value of Alice.
    pub fn sample_alice() -> (account: Self)
        ensures
            account@ == ("Alice Smith"@, "alice@example.com"@),
    {
        EmailAccount { name: "Alice Smith".to_owned(), email: EmailAddress::sample_alice() }
    }

    /// The sample value of Bob.
    pub fn sample_bob() -> (account: Self)
        ensures
            account@ == ("Bob Johnson"@, "bob@example.com"@),
    {
        EmailAccount { name: "Bob Johnson".to_owned(), email: EmailAddress::sample_bob() }
    }
}

/// The view of an account that may be absent.
pub open spec fn optional_account_view(account: Option<EmailAccount>) -> Option<
    (Seq<char>, Seq<char>),
> {
    match account {
        Some(account) => Some(account@),
        None => None,
    }
}

/// Copies an account that may be absent.
pub fn clone_optional_account(account: &Option<EmailAccount>) -> (copy: Option<EmailAccount>)
    ensures
        optional_account_view(copy) == optional_account_view(*account),
{
    match account {
        Some(account) => Some(account.clone()),
        None => None,
    }
}

/// Whether two accounts that may be absent are both absent or equal.
pub fn same_optional_account(left: &Option<EmailAccount>, right: &Option<EmailAccount>) -> (same:
    bool)
    ensures
        same == (optional_account_view(*left) == optional_account_view(*right)),
{
    match (left, right) {
        (Some(left), Some(right)) => left == right,
        (None, None) => true,
        _ => false,
    }
}

impl Clone for EmailAccount {
    fn clone(&self) -> (copy: Self)
        ensures
            copy@ == self@,
    {
        EmailAccount { name: self.name.clone(), email: self.email.clone() }
    }
}

impl PartialEq for EmailAccount {
    fn eq(&self, other: &Self) -> (equal: bool) {
        self.name == other.name && self.email == other.email
    }
}

impl Eq for EmailAccount {

}

impl PartialEqSpecImpl for EmailAccount {
    open spec fn obeys_eq_spec() -> bool {
        true
    }

    open spec fn eq_spec(&self, other: &Self) -> bool {
        self@ == other@
    }
}

} // verus!
