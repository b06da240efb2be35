use super::address_set::{
    address_set_of, addresses, new_address_set, same_addresses, same_members, unique_texts,
};
use super::attachment::Attachment;
use super::attachment_set::{
    attachment_set_of, attachments, same_attachment_members, same_attachments, unique_attachments,
};
use super::email_account::{
    clone_optional_account, optional_account_view, same_optional_account, EmailAccount,
};
use super::email_address::EmailAddress;
use indexmap::IndexSet;
use vstd::prelude::*;
use vstd::std_specs::cmp::PartialEqSpecImpl;

verus! {

/// An email message that can be sent using an SMTP server.
pub struct Email {
    public_recipients: IndexSet<EmailAddress>,
    cc_recipients: IndexSet<EmailAddress>,
    bcc_recipients: IndexSet<EmailAddress>,
    subject: String,
    body: Option<String>,
    reply_to: Option<EmailAccount>,
    attachments: IndexSet<Attachment>,
}

/// What an email holds, field by field.
pub struct EmailView {
    pub public_recipients: Seq<Seq<char>>,
    pub cc_recipients: Seq<Seq<char>>,
    pub bcc_recipients: Seq<Seq<char>>,
    pub subject: Seq<char>,
    pub body: Option<Seq<char>>,
    pub reply_to: Option<(Seq<char>, Seq<char>)>,
    pub attachments: Seq<(Seq<char>, Seq<char>, Seq<u8>)>,
}

/// The view of a text that may be absent.
pub open spec fn optional_body_view(body: Option<String>) -> Option<Seq<char>> {
    match body {
        Some(body) => Some(body@),
        None => None,
    }
}

/// Whether two texts that may be absent are both absent or equal.
pub fn same_optional_text(left: &Option<String>, right: &Option<String>) -> (same: bool)
    ensures
        same == (optional_body_view(*left) == optional_body_view(*right)),
{
    match left {
        Some(left) => match right {
            Some(right) => *left == *right,
            None => false,
        },
        None => right.is_none(),
    }
}

impl View for Email {
    type V = EmailView;

    closed spec fn view(&self) -> EmailView {
        EmailView {
            public_recipients: addresses(self.public_recipients),
            cc_recipients: addresses(self.cc_recipients),
            bcc_recipients: addresses(self.bcc_recipients),
            subject: self.subject@,
            body: optional_body_view(self.body),
            reply_to: optional_account_view(self.reply_to),
            attachments: attachments(self.attachments),
        }
    }
}

impl Email {
    /// The email with the given fields.
    pub fn new(
        public_recipients: IndexSet<EmailAddress>,
        cc_recipients: IndexSet<EmailAddress>,
        bcc_recipients: IndexSet<EmailAddress>,
        subject: String,
        body: Option<String>,
        reply_to: Option<EmailAccount>,
        attachments: IndexSet<Attachment>,
    ) -> (email: Self)
        ensures
            email@ == (EmailView {
                public_recipients: addresses(public_recipients),
                cc_recipients: addresses(cc_recipients),
                bcc_recipients: addresses(bcc_recipients),
                subject: subject@,
                body: optional_body_view(body),
                reply_to: optional_account_view(reply_to),
                attachments: self::attachments(attachments),
            }),
    {
        Email {
            public_recipients,
            cc_recipients,
            bcc_recipients,
            subject,
            body,
            reply_to,
            attachments,
        }
    }

    /// The primary recipients.
    pub fn public_recipients(&self) -> (recipients: &IndexSet<EmailAddress>)
        ensures
            addresses(*recipients) == self@.public_recipients,
    {
        &self.public_recipients
    }

    /// The recipients of a copy.
    pub fn cc_recipients(&self) -> (recipients: &IndexSet<EmailAddress>)
        ensures
            addresses(*recipients) == self@.cc_recipients,
    {
        &self.cc_recipients
    }

    /// The recipients of a blind copy.
    pub fn bcc_recipients(&self) -> (recipients: &IndexSet<EmailAddress>)
        ensures
            addresses(*recipients) == self@.bcc_recipients,
    {
        &self.bcc_recipients
    }

    /// The subject.
    pub fn subject(&self) -> (subject: &String)
        ensures
            subject@ == self@.subject,
    {
        &self.subject
    }

    /// The body of the email, empty where it has none.
    pub fn body(&self) -> (body: String)
        ensures
            body@ == (match self@.body {
                Some(text) => text,
                None => Seq::<char>::empty(),
            }),
    {
        match &self.body {
            Some(body) => body.clone(),
            None => String::new(),
        }
    }

    /// The account to reply to, if there is one.
    pub fn reply_to(&self) -> (reply_to: &Option<EmailAccount>)
        ensures
            optional_account_view(*reply_to) == self@.reply_to,
    {
        &self.reply_to
    }

    /// The attachments.
    pub fn attachments(&self) -> (set: &IndexSet<Attachment>)
        ensures
            attachments(*set) == self@.attachments,
    {
        &self.attachments
    }

    /// A sample value, for examples and tests.
    pub fn sample() -> (email: Self)
        ensures
            email@ == (EmailView {
                public_recipients: seq!["bob@example.com"@],
                cc_recipients: seq!["carol@example.com"@],
                bcc_recipients: seq!["erin@example.com"@],
                subject: "Sample Email Subject"@,
                body: Some("This is a sample email body."@),
                reply_to: None,
                attachments: seq![
                    ("sample.pdf"@, "application/pdf"@, seq![0xdeu8, 0xadu8, 0xbeu8, 0xefu8]),
                ],
            }),
    {
        let public = vec![EmailAddress::sample_bob()];
        let cc = vec![EmailAddress::sample_carol()];
        let bcc = vec![EmailAddress::sample_erin()];
        let files = vec![Attachment::sample()];
        proof {
            reveal_with_fuel(unique_texts, 2);
            reveal_with_fuel(unique_attachments, 2);
            assert(unique_texts(public@, 1) =~= seq!["bob@example.com"@]);
            assert(unique_texts(cc@, 1) =~= seq!["carol@example.com"@]);
            assert(unique_texts(bcc@, 1) =~= seq!["erin@example.com"@]);
            assert(unique_attachments(files@, 1) =~= seq![files@[0]@]);
        }
        Email {
            public_recipients: address_set_of(public),
            cc_recipients: address_set_of(cc),
            bcc_recipients: address_set_of(bcc),
            subject: "Sample Email Subject".to_owned(),
            body: Some("This is a sample email body.".to_owned()),
            reply_to: None,
            attachments: attachment_set_of(files),
        }
    }

    /// A second sample value, different from `sample`.
    pub fn sample_other() -> (email: Self)
        ensures
            email@ == (EmailView {
                public_recipients: seq!["alice@example.com"@],
                cc_recipients: seq!["dave@example.com"@],
                bcc_recipients: Seq::<Seq<char>>::empty(),
                subject: "Another Sample Email Subject"@,
                body: Some("This is another sample email body."@),
                reply_to: None,
                attachments: seq![
                    (
                        "notes.txt"@,
                        "text/plain"@,
                        vstd::utf8::encode_utf8("Hello from mejla"@),
                    ),
                ],
            }),
    {
        let public = vec![EmailAddress::sample_alice()];
        let cc = vec![EmailAddress::sample_dave()];
        let files = vec![Attachment::sample_other()];
        proof {
            reveal_with_fuel(unique_texts, 2);
            reveal_with_fuel(unique_attachments, 2);
            assert(unique_texts(public@, 1) =~= seq!["alice@example.com"@]);
            assert(unique_texts(cc@, 1) =~= seq!["dave@example.com"@]);
            assert(unique_attachments(files@, 1) =~= seq![files@[0]@]);
        }
        Email {
            public_recipients: address_set_of(public),
            cc_recipients: address_set_of(cc),
            bcc_recipients: new_address_set(),
            subject: "Another Sample Email Subject".to_owned(),
            body: Some("This is another sample email body.".to_owned()),
            reply_to: None,
            attachments: attachment_set_of(files),
        }
    }
}

impl Clone for Email {
    fn clone(&self) -> (copy: Self)
        ensures
            copy@ == self@,
    {
        Email {
            public_recipients: self.public_recipients.clone(),
            cc_recipients: self.cc_recipients.clone(),
            bcc_recipients: self.bcc_recipients.clone(),
            subject: self.subject.clone(),
            body: match &self.body {
                Some(body) => Some(body.clone()),
                None => None,
            },
            reply_to: clone_optional_account(&self.reply_to),
            attachments: self.attachments.clone(),
        }
    }
}

impl PartialEq for Email {
    fn eq(&self, other: &Self) -> (equal: bool) {
        let same_body = same_optional_text(&self.body, &other.body);
        same_addresses(&self.public_recipients, &other.public_recipients) && same_addresses(
            &self.cc_recipients,
            &other.cc_recipients,
        ) && same_addresses(&self.bcc_recipients, &other.bcc_recipients) && self.subject
            == other.subject && same_body && same_optional_account(&self.reply_to, &other.reply_to)
            && same_attachments(&self.attachments, &other.attachments)
    }
}

impl PartialEqSpecImpl for Email {
    open spec fn obeys_eq_spec() -> bool {
        true
    }

    /// Two emails are equal where their fields are; sets are equal where
    /// they hold the same elements, whatever their order.
    open spec fn eq_spec(&self, other: &Self) -> bool {
        &&& same_members(self@.public_recipients, other@.public_recipients)
        &&& same_members(self@.cc_recipients, other@.cc_recipients)
        &&& same_members(self@.bcc_recipients, other@.bcc_recipients)
        &&& self@.subject == other@.subject
        &&& self@.body == other@.body
        &&& self@.reply_to == other@.reply_to
        &&& same_attachment_members(self@.attachments, other@.attachments)
    }
}

} // verus!
