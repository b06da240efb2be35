use crate::email::address_set::{address_at, address_count, addresses, contains_address, insert_address};
use crate::email::email_address::EmailAddress;
use indexmap::IndexSet;
use vstd::prelude::*;
use vstd::string::StringExecFns;

verus! {

/// The part that an email address plays in a message.
#[derive(Clone, Copy, Debug, PartialEq, Eq, Structural)]
pub enum EmailAddressRole {
    ReplyTo,
    Sender,
    Recipient,
    Cc,
    Bcc,
}

impl EmailAddressRole {
    /// The name of the role, as it is displayed.
    pub open spec fn label(&self) -> Seq<char> {
        match *self {
            EmailAddressRole::ReplyTo => "Reply-To"@,
            EmailAddressRole::Sender => "Sender"@,
            EmailAddressRole::Recipient => "Recipient"@,
            EmailAddressRole::Cc => "CC"@,
            EmailAddressRole::Bcc => "BCC"@,
        }
    }

    /// Renders the name of the role.
    pub fn to_string(&self) -> (text: String)
        ensures
            text@ == self.label(),
    {
        match self {
            EmailAddressRole::ReplyTo => String::from_str("Reply-To"),
            EmailAddressRole::Sender => String::from_str("Sender"),
            EmailAddressRole::Recipient => String::from_str("Recipient"),
            EmailAddressRole::Cc => String::from_str("CC"),
            EmailAddressRole::Bcc => String::from_str("BCC"),
        }
    }
}

/// What follows an answer to the question for one more email address.
#[derive(Clone, Copy, Debug, PartialEq, Eq, Structural)]
pub enum AddressStep {
    /// The question was skipped: the collection is complete.
    Finished,
    /// The address is in the collection already: it is left out, and the
    /// question is asked again.
    Duplicate,
    /// The address was added: ask whether another one follows.
    Added,
}

/// The address to offer as the default of the next question: the one that
/// the earlier collection holds at the position that is asked for now.
pub fn next_default_address<'a>(
    defaults: &'a IndexSet<EmailAddress>,
    emails: &IndexSet<EmailAddress>,
) -> (default: Option<&'a EmailAddress>)
    ensures
        default is Some <==> addresses(*emails).len() < addresses(*defaults).len(),
        default is Some ==> default->Some_0@ == addresses(*defaults)[addresses(*emails).len() as int],
{
    address_at(defaults, address_count(emails))
}

/// Takes the answer to the question for one more address into the
/// collection. A skipped question ends the collection and an address that
/// is there already changes nothing; any other address is added at the end.
pub fn add_answered_address(emails: &mut IndexSet<EmailAddress>, answer: Option<EmailAddress>) -> (step:
    AddressStep)
    ensures
        match answer {
            None => step == AddressStep::Finished && addresses(*final(emails)) == addresses(
                *old(emails),
            ),
            Some(address) => if addresses(*old(emails)).contains(address@) {
                step == AddressStep::Duplicate && addresses(*final(emails)) == addresses(
                    *old(emails),
                )
            } else {
                step == AddressStep::Added && addresses(*final(emails)) == addresses(
                    *old(emails),
                ).push(address@)
            },
        },
{
    match answer {
        None => AddressStep::Finished,
        Some(address) => {
            if contains_address(emails, &address) {
                AddressStep::Duplicate
            } else {
                insert_address(emails, address);
                AddressStep::Added
            }
        },
    }
}

/// Whether the collection goes on after an address was added: it does
/// unless the user declined; a question that could not be answered counts
/// as consent.
pub fn wants_another_address(answer: Option<bool>) -> (another: bool)
    ensures
        another == (answer != Some(false)),
{
    match answer {
        Some(another) => another,
        None => true,
    }
}

} // verus!
