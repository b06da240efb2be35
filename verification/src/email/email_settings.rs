use super::address_set::{address_set_of, addresses, same_addresses, same_members, unique_texts};
use super::attachment::Attachment;
use super::email::{Email, EmailView};
use super::email_credentials::{EmailCredentials, EmailCredentialsView};
use super::email_account::{
    clone_optional_account, optional_account_view, same_optional_account, EmailAccount,
};
use super::email_address::EmailAddress;
use super::smtp_server::SmtpServer;
use super::template::Template;
use crate::encryption::encrypted_app_password::EncryptedAppPassword;
use crate::encryption::encryption_key::EncryptionKey;
use crate::encryption::erase::Zeroize;
use crate::encryption::error::CryptoError;
use crate::encryption::pb_hkdf::PbHkdfSha256;
use crate::encryption::salt::Salt;
use crate::encryption::secret::SecretString;
use indexmap::IndexSet;
use vstd::prelude::*;
use vstd::std_specs::cmp::PartialEqSpecImpl;

verus! {

/// Settings whose app password is held as plaintext, in memory only.
pub type DecryptedEmailSettings = EmailSettings<SecretString>;

/// Settings whose app password is held encrypted: the form that is stored.
pub type EncryptedEmailSettings = EmailSettings<EncryptedAppPassword>;

/// Represents settings for sending emails. The one secret field is held
/// either encrypted or decrypted, by the type parameter.
pub struct EmailSettings<AppPassword: Zeroize> {
    smtp_app_password: AppPassword,
    salt: Salt,
    template: Template,
    reply_to: Option<EmailAccount>,
    smtp_server: SmtpServer,
    sender: EmailAccount,
    recipients: IndexSet<EmailAddress>,
    cc_recipients: IndexSet<EmailAddress>,
    bcc_recipients: IndexSet<EmailAddress>,
}

/// What settings hold, field by field.
pub struct EmailSettingsView<P> {
    pub smtp_app_password: P,
    pub salt: Seq<u8>,
    pub template: (Seq<char>, Seq<char>),
    pub reply_to: Option<(Seq<char>, Seq<char>)>,
    pub smtp_server: Seq<char>,
    pub sender: (Seq<char>, Seq<char>),
    pub recipients: Seq<Seq<char>>,
    pub cc_recipients: Seq<Seq<char>>,
    pub bcc_recipients: Seq<Seq<char>>,
}

impl<P> EmailSettingsView<P> {
    /// The same settings with another value in the place of the secret.
    pub open spec fn with_secret<Q>(self, secret: Q) -> EmailSettingsView<Q> {
        EmailSettingsView {
            smtp_app_password: secret,
            salt: self.salt,
            template: self.template,
            reply_to: self.reply_to,
            smtp_server: self.smtp_server,
            sender: self.sender,
            recipients: self.recipients,
            cc_recipients: self.cc_recipients,
            bcc_recipients: self.bcc_recipients,
        }
    }
}

impl<AppPassword: Zeroize + View> View for EmailSettings<AppPassword> {
    type V = EmailSettingsView<AppPassword::V>;

    closed spec fn view(&self) -> EmailSettingsView<AppPassword::V> {
        EmailSettingsView {
            smtp_app_password: self.smtp_app_password@,
            salt: self.salt@,
            template: self.template@,
            reply_to: optional_account_view(self.reply_to),
            smtp_server: self.smtp_server@,
            sender: self.sender@,
            recipients: addresses(self.recipients),
            cc_recipients: addresses(self.cc_recipients),
            bcc_recipients: addresses(self.bcc_recipients),
        }
    }
}

impl<AppPassword: Zeroize + View> EmailSettings<AppPassword> {
    /// The settings with the given fields.
    pub fn new(
        smtp_app_password: AppPassword,
        salt: Salt,
        template: Template,
        reply_to: Option<EmailAccount>,
        smtp_server: SmtpServer,
        sender: EmailAccount,
        recipients: IndexSet<EmailAddress>,
        cc_recipients: IndexSet<EmailAddress>,
        bcc_recipients: IndexSet<EmailAddress>,
    ) -> (settings: Self)
        ensures
            settings@ == (EmailSettingsView {
                smtp_app_password: smtp_app_password@,
                salt: salt@,
                template: template@,
                reply_to: optional_account_view(reply_to),
                smtp_server: smtp_server@,
                sender: sender@,
                recipients: addresses(recipients),
                cc_recipients: addresses(cc_recipients),
                bcc_recipients: addresses(bcc_recipients),
            }),
    {
        EmailSettings {
            smtp_app_password,
            salt,
            template,
            reply_to,
            smtp_server,
            sender,
            recipients,
            cc_recipients,
            bcc_recipients,
        }
    }

    /// The app password, in the form in which the settings hold it.
    pub closed spec fn spec_smtp_app_password(&self) -> AppPassword {
        self.smtp_app_password
    }

    /// The app password, in the form in which the settings hold it.
    pub fn smtp_app_password(&self) -> (secret: &AppPassword)
        ensures
            *secret == self.spec_smtp_app_password(),
            secret@ == self@.smtp_app_password,
    {
        &self.smtp_app_password
    }

    /// The salt of the key derivation.
    pub fn salt(&self) -> (salt: &Salt)
        ensures
            salt@ == self@.salt,
    {
        &self.salt
    }

    /// The template of subject and body.
    pub fn template(&self) -> (template: &Template)
        ensures
            template@ == self@.template,
    {
        &self.template
    }

    /// The account to reply to, if there is one.
    pub fn reply_to(&self) -> (reply_to: &Option<EmailAccount>)
        ensures
            optional_account_view(*reply_to) == self@.reply_to,
    {
        &self.reply_to
    }

    /// The SMTP server.
    pub fn smtp_server(&self) -> (smtp_server: &SmtpServer)
        ensures
            smtp_server@ == self@.smtp_server,
    {
        &self.smtp_server
    }

    /// The sender.
    pub fn sender(&self) -> (sender: &EmailAccount)
        ensures
            sender@ == self@.sender,
    {
        &self.sender
    }

    /// The primary recipients.
    pub fn recipients(&self) -> (recipients: &IndexSet<EmailAddress>)
        ensures
            addresses(*recipients) == self@.recipients,
    {
        &self.recipients
    }

    /// The recipients of a copy.
    pub fn cc_recipients(&self) -> (recipients: &IndexSet<EmailAddress>)
        ensures
            addresses(*recipients) == self@.cc_recipients,
    {
        &self.cc_recipients
    }

    /// The recipients of a blind copy.
    pub fn bcc_recipients(&self) -> (recipients: &IndexSet<EmailAddress>)
        ensures
            addresses(*recipients) == self@.bcc_recipients,
    {
        &self.bcc_recipients
    }

    /// The same settings with another sender.
    pub fn with_sender(self, sender: EmailAccount) -> (settings: Self)
        ensures
            settings@ == (EmailSettingsView { sender: sender@, ..self@ }),
    {
        EmailSettings {
            smtp_app_password: self.smtp_app_password,
            salt: self.salt,
            template: self.template,
            reply_to: self.reply_to,
            smtp_server: self.smtp_server,
            sender,
            recipients: self.recipients,
            cc_recipients: self.cc_recipients,
            bcc_recipients: self.bcc_recipients,
        }
    }
}

impl<AppPassword: Zeroize + View> Zeroize for EmailSettings<AppPassword> {
    /// Whether the app password and the salt hold no secret material.
    open spec fn is_zeroized(&self) -> bool {
        self.spec_smtp_app_password().is_zeroized() && self@.salt
            == crate::encryption::erase::zero_bytes(16)
    }

    /// Overwrites the secret-bearing fields, the app password and the salt,
    /// and leaves the other fields as they are.
    fn zeroize(&mut self)
        ensures
            final(self)@.template == old(self)@.template,
            final(self)@.reply_to == old(self)@.reply_to,
            final(self)@.smtp_server == old(self)@.smtp_server,
            final(self)@.sender == old(self)@.sender,
            final(self)@.recipients == old(self)@.recipients,
            final(self)@.cc_recipients == old(self)@.cc_recipients,
            final(self)@.bcc_recipients == old(self)@.bcc_recipients,
    {
        self.smtp_app_password.zeroize();
        self.salt.zeroize();
    }
}


/// The recipients of the sample settings.
pub open spec fn sample_recipients() -> Seq<Seq<char>> {
    seq!["alice@example.com"@, "bob@example.com"@]
}

/// The recipients of the other sample settings.
pub open spec fn sample_other_recipients() -> Seq<Seq<char>> {
    seq!["bob@example.com"@, "carol@example.com"@]
}

/// The sample settings, with the given value in the place of the secret.
pub open spec fn sample_view<P>(secret: P) -> EmailSettingsView<P> {
    EmailSettingsView {
        smtp_app_password: secret,
        salt: Seq::new(16, |i: int| 0xabu8),
        template: ("Invoice <INV_NO> from <FROM_CO>"@, "Invoice <INV_NO> from <FROM_CO>"@),
        reply_to: None,
        smtp_server: "smtp.gmail.com"@,
        sender: ("Alice Smith"@, "alice@example.com"@),
        recipients: sample_recipients(),
        cc_recipients: seq!["carol@example.com"@],
        bcc_recipients: seq!["dave@example.com"@, "erin@example.com"@],
    }
}

/// The other sample settings, with the given value in the place of the
/// secret.
pub open spec fn sample_other_view<P>(secret: P) -> EmailSettingsView<P> {
    EmailSettingsView {
        smtp_app_password: secret,
        salt: Seq::new(16, |i: int| 0xcdu8),
        template: ("Invoice <INV_NO> from <FROM_CO>"@, "Invoice <INV_NO> from <FROM_CO>"@),
        reply_to: None,
        smtp_server: "smtp.gmail.com"@,
        sender: ("Bob Johnson"@, "bob@example.com"@),
        recipients: sample_other_recipients(),
        cc_recipients: seq!["dave@example.com"@],
        bcc_recipients: seq!["erin@example.com"@, "alice@example.com"@],
    }
}

/// The set of two addresses with different texts, in their order.
fn address_pair(first: EmailAddress, second: EmailAddress) -> (set: IndexSet<EmailAddress>)
    requires
        first@ != second@,
    ensures
        addresses(set) == seq![first@, second@],
{
    let items = vec![first, second];
    proof {
        reveal_with_fuel(unique_texts, 3);
        assert(unique_texts(items@, 1) =~= seq![first@]);
        assert(unique_texts(items@, 2) =~= seq![first@, second@]);
    }
    address_set_of(items)
}

/// The set of one address.
fn single_address(address: EmailAddress) -> (set: IndexSet<EmailAddress>)
    ensures
        addresses(set) == seq![address@],
{
    let items = vec![address];
    proof {
        reveal_with_fuel(unique_texts, 2);
        assert(unique_texts(items@, 1) =~= seq![address@]);
    }
    address_set_of(items)
}

/// The sample addresses differ from each other.
proof fn lemma_sample_addresses_differ()
    ensures
        "alice@example.com"@ != "bob@example.com"@,
        "bob@example.com"@ != "carol@example.com"@,
        "dave@example.com"@ != "erin@example.com"@,
        "erin@example.com"@ != "alice@example.com"@,
{
    reveal_strlit("alice@example.com");
    reveal_strlit("bob@example.com");
    reveal_strlit("carol@example.com");
    reveal_strlit("dave@example.com");
    reveal_strlit("erin@example.com");
    assert("alice@example.com"@[0] != "bob@example.com"@[0]);
    assert("bob@example.com"@[0] != "carol@example.com"@[0]);
    assert("dave@example.com"@[0] != "erin@example.com"@[0]);
    assert("erin@example.com"@[0] != "alice@example.com"@[0]);
}

impl EmailSettings<SecretString> {
    /// The email with the given subject, body and attachments to the
    /// recipients of the settings, and the credentials to send it with: the
    /// sender, the plaintext app password and the server.
    pub fn compose(&self, subject: String, body: String, attachments: IndexSet<Attachment>) -> (composed:
        (Email, EmailCredentials))
        ensures
            composed.0@ == (EmailView {
                public_recipients: self@.recipients,
                cc_recipients: self@.cc_recipients,
                bcc_recipients: self@.bcc_recipients,
                subject: subject@,
                body: Some(body@),
                reply_to: self@.reply_to,
                attachments: super::attachment_set::attachments(attachments),
            }),
            composed.1@ == (EmailCredentialsView {
                smtp_server: self@.smtp_server,
                account: self@.sender,
                password: self@.smtp_app_password,
            }),
    {
        let email = Email::new(
            self.recipients.clone(),
            self.cc_recipients.clone(),
            self.bcc_recipients.clone(),
            subject,
            Some(body),
            clone_optional_account(&self.reply_to),
            attachments,
        );
        let credentials = EmailCredentials::from_settings(self);
        (email, credentials)
    }

    /// A sample value, for examples and tests.
    pub fn sample() -> (settings: Self)
        ensures
            settings@ == sample_view("encryption password"@),
    {
        proof {
            lemma_sample_addresses_differ();
        }
        EmailSettings {
            smtp_app_password: SecretString::new("encryption password".to_owned()),
            salt: Salt::sample(),
            template: Template::default(),
            reply_to: None,
            smtp_server: SmtpServer::default(),
            sender: EmailAccount::sample(),
            recipients: address_pair(EmailAddress::sample_alice(), EmailAddress::sample_bob()),
            cc_recipients: single_address(EmailAddress::sample_carol()),
            bcc_recipients: address_pair(EmailAddress::sample_dave(), EmailAddress::sample_erin()),
        }
    }

    /// A second sample value, different from `sample`.
    pub fn sample_other() -> (settings: Self)
        ensures
            settings@ == sample_other_view("another encryption password"@),
    {
        proof {
            lemma_sample_addresses_differ();
        }
        EmailSettings {
            smtp_app_password: SecretString::new("another encryption password".to_owned()),
            salt: Salt::sample_other(),
            template: Template::default(),
            reply_to: None,
            smtp_server: SmtpServer::default(),
            sender: EmailAccount::sample_other(),
            recipients: address_pair(EmailAddress::sample_bob(), EmailAddress::sample_carol()),
            cc_recipients: single_address(EmailAddress::sample_dave()),
            bcc_recipients: address_pair(EmailAddress::sample_erin(), EmailAddress::sample_alice()),
        }
    }
}

impl EmailSettings<EncryptedAppPassword> {
    /// The sample settings with the sample of an encrypted app password.
    pub fn sample() -> (settings: Self)
        ensures
            settings@ == sample_view(settings@.smtp_app_password),
            EncryptedAppPassword::decrypted(
                settings@.smtp_app_password,
                PbHkdfSha256::derived_key(
                    vstd::utf8::encode_utf8("encryption password"@),
                    settings@.salt,
                ),
            ) == Ok::<Seq<char>, CryptoError>("open sesame"@),
    {
        proof {
            lemma_sample_addresses_differ();
        }
        EmailSettings {
            smtp_app_password: EncryptedAppPassword::sample(),
            salt: Salt::sample(),
            template: Template::default(),
            reply_to: None,
            smtp_server: SmtpServer::default(),
            sender: EmailAccount::sample(),
            recipients: address_pair(EmailAddress::sample_alice(), EmailAddress::sample_bob()),
            cc_recipients: single_address(EmailAddress::sample_carol()),
            bcc_recipients: address_pair(EmailAddress::sample_dave(), EmailAddress::sample_erin()),
        }
    }

    /// The other sample settings with the other sample of an encrypted app
    /// password.
    pub fn sample_other() -> (settings: Self)
        ensures
            settings@ == sample_other_view(settings@.smtp_app_password),
            EncryptedAppPassword::decrypted(
                settings@.smtp_app_password,
                PbHkdfSha256::derived_key(
                    vstd::utf8::encode_utf8("another encryption password"@),
                    settings@.salt,
                ),
            ) == Ok::<Seq<char>, CryptoError>("super_secret"@),
    {
        proof {
            lemma_sample_addresses_differ();
        }
        EmailSettings {
            smtp_app_password: EncryptedAppPassword::sample_other(),
            salt: Salt::sample_other(),
            template: Template::default(),
            reply_to: None,
            smtp_server: SmtpServer::default(),
            sender: EmailAccount::sample_other(),
            recipients: address_pair(EmailAddress::sample_bob(), EmailAddress::sample_carol()),
            cc_recipients: single_address(EmailAddress::sample_dave()),
            bcc_recipients: address_pair(EmailAddress::sample_erin(), EmailAddress::sample_alice()),
        }
    }

    /// What `decrypt_smtp_app_password` returns for settings and the UTF-8
    /// bytes of an encryption password: the same settings with the app
    /// password in plaintext, or the error of the decryption.
    pub open spec fn decrypted_with(
        settings: EmailSettingsView<Seq<u8>>,
        encryption_password: Seq<u8>,
    ) -> Result<EmailSettingsView<Seq<char>>, CryptoError> {
        Self::decrypted_with_key(
            settings,
            PbHkdfSha256::derived_key(encryption_password, settings.salt),
        )
    }

    /// The same for a key that is derived already.
    pub open spec fn decrypted_with_key(
        settings: EmailSettingsView<Seq<u8>>,
        encryption_key: Seq<u8>,
    ) -> Result<EmailSettingsView<Seq<char>>, CryptoError> {
        match EncryptedAppPassword::decrypted(settings.smtp_app_password, encryption_key) {
            Ok(secret) => Ok(settings.with_secret(secret)),
            Err(error) => Err(error),
        }
    }

    /// Round trip: where the app password of settings decrypts to a text
    /// under the key of an encryption password and the stored salt, as it
    /// does after it was encrypted under that password and salt, decrypting
    /// the settings with that password gives the same settings with the
    /// text in the place of the secret.
    pub proof fn lemma_decrypt_recovers_secret(
        settings: EmailSettingsView<Seq<u8>>,
        encryption_password: Seq<u8>,
        secret: Seq<char>,
    )
        requires
            EncryptedAppPassword::decrypted(
                settings.smtp_app_password,
                PbHkdfSha256::derived_key(encryption_password, settings.salt),
            ) == Ok::<Seq<char>, CryptoError>(secret),
        ensures
            Self::decrypted_with(settings, encryption_password) == Ok::<
                EmailSettingsView<Seq<char>>,
                CryptoError,
            >(settings.with_secret(secret)),
            same_plain_fields(settings, settings.with_secret(secret)),
    {
        let decrypted = settings.with_secret(secret);
        assert(same_members(settings.recipients, decrypted.recipients)) by {
            assert forall|i: int| 0 <= i < settings.recipients.len() implies decrypted.recipients.contains(
                #[trigger] settings.recipients[i],
            ) by {}
        }
        assert(same_members(settings.cc_recipients, decrypted.cc_recipients)) by {
            assert forall|i: int|
                0 <= i < settings.cc_recipients.len() implies decrypted.cc_recipients.contains(
                #[trigger] settings.cc_recipients[i],
            ) by {}
        }
        assert(same_members(settings.bcc_recipients, decrypted.bcc_recipients)) by {
            assert forall|i: int|
                0 <= i < settings.bcc_recipients.len() implies decrypted.bcc_recipients.contains(
                #[trigger] settings.bcc_recipients[i],
            ) by {}
        }
    }

    /// Decrypts the app password with a derived key and copies the other
    /// fields. An error of the decryption is handed on unchanged.
    pub fn derive_and_decrypt_smtp_app_password(&self, encryption_key: EncryptionKey) -> (decrypted:
        Result<DecryptedEmailSettings, CryptoError>)
        ensures
            match decrypted {
                Ok(settings) => Self::decrypted_with_key(self@, encryption_key@) == Ok::<
                    EmailSettingsView<Seq<char>>,
                    CryptoError,
                >(settings@),
                Err(error) => Self::decrypted_with_key(self@, encryption_key@) == Err::<
                    EmailSettingsView<Seq<char>>,
                    CryptoError,
                >(error),
            },
    {
        match self.smtp_app_password.decrypt(encryption_key) {
            Err(error) => Err(error),
            Ok(secret) => Ok(
                EmailSettings {
                    smtp_app_password: secret,
                    salt: self.salt.clone(),
                    template: self.template.clone(),
                    reply_to: clone_optional_account(&self.reply_to),
                    smtp_server: self.smtp_server.clone(),
                    sender: self.sender.clone(),
                    recipients: self.recipients.clone(),
                    cc_recipients: self.cc_recipients.clone(),
                    bcc_recipients: self.bcc_recipients.clone(),
                },
            ),
        }
    }

    /// Derives the key of the encryption password and the stored salt and
    /// decrypts the app password with it. A wrong encryption password and
    /// corrupted bytes give the same error.
    pub fn decrypt_smtp_app_password(&self, encryption_password: SecretString) -> (decrypted: Result<
        DecryptedEmailSettings,
        CryptoError,
    >)
        ensures
            match decrypted {
                Ok(settings) => Self::decrypted_with(self@, encryption_password.bytes()) == Ok::<
                    EmailSettingsView<Seq<char>>,
                    CryptoError,
                >(settings@),
                Err(error) => Self::decrypted_with(self@, encryption_password.bytes()) == Err::<
                    EmailSettingsView<Seq<char>>,
                    CryptoError,
                >(error),
            },
    {
        let encryption_key = PbHkdfSha256::derive_key_from(encryption_password, &self.salt);
        self.derive_and_decrypt_smtp_app_password(encryption_key)
    }

}

/// Whether two settings agree in every field but the secret. Sets of
/// recipients are equal where they hold the same addresses, whatever their
/// order.
pub open spec fn same_plain_fields<P, Q>(left: EmailSettingsView<P>, right: EmailSettingsView<Q>) -> bool {
    &&& left.salt == right.salt
    &&& left.template == right.template
    &&& left.reply_to == right.reply_to
    &&& left.smtp_server == right.smtp_server
    &&& left.sender == right.sender
    &&& same_members(left.recipients, right.recipients)
    &&& same_members(left.cc_recipients, right.cc_recipients)
    &&& same_members(left.bcc_recipients, right.bcc_recipients)
}

impl<AppPassword: Zeroize + View> EmailSettings<AppPassword> {
    /// Compares every field but the secret.
    fn plain_fields_equal<Other: Zeroize + View>(&self, other: &EmailSettings<Other>) -> (equal: bool)
        ensures
            equal == same_plain_fields(self@, other@),
    {
        let same_salt = crate::encryption::salt::same_salt(&self.salt, &other.salt);
        same_salt && self.template == other.template && same_optional_account(
            &self.reply_to,
            &other.reply_to,
        ) && self.smtp_server == other.smtp_server && self.sender == other.sender
            && same_addresses(&self.recipients, &other.recipients) && same_addresses(
            &self.cc_recipients,
            &other.cc_recipients,
        ) && same_addresses(&self.bcc_recipients, &other.bcc_recipients)
    }
}

impl PartialEq for EmailSettings<EncryptedAppPassword> {
    fn eq(&self, other: &Self) -> (equal: bool) {
        self.smtp_app_password == other.smtp_app_password && self.plain_fields_equal(other)
    }
}

impl PartialEqSpecImpl for EmailSettings<EncryptedAppPassword> {
    open spec fn obeys_eq_spec() -> bool {
        true
    }

    open spec fn eq_spec(&self, other: &Self) -> bool {
        self@.smtp_app_password == other@.smtp_app_password && same_plain_fields(self@, other@)
    }
}

impl PartialEq for EmailSettings<SecretString> {
    /// Two decrypted settings are equal where every field is equal; the
    /// secrets are exposed and compared as texts.
    fn eq(&self, other: &Self) -> (equal: bool) {
        self.smtp_app_password.same_secret(&other.smtp_app_password) && self.plain_fields_equal(
            other,
        )
    }
}

impl PartialEqSpecImpl for EmailSettings<SecretString> {
    open spec fn obeys_eq_spec() -> bool {
        true
    }

    open spec fn eq_spec(&self, other: &Self) -> bool {
        self@.smtp_app_password == other@.smtp_app_password && same_plain_fields(self@, other@)
    }
}

} // verus!
