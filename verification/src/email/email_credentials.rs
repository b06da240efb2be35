use super::email_account::EmailAccount;
use super::email_settings::DecryptedEmailSettings;
use super::smtp_server::SmtpServer;
use crate::encryption::secret::SecretString;
use vstd::prelude::*;
use vstd::std_specs::cmp::PartialEqSpecImpl;
use vstd::std_specs::convert::FromSpecImpl;

verus! {

/// Credentials for an email account, typically used for sending emails via SMTP.
pub struct EmailCredentials {
    smtp_server: SmtpServer,
    account: EmailAccount,
    /// The password for the email account, typically an "App Password".
    password: SecretString,
}

/// What credentials hold, field by field.
pub struct EmailCredentialsView {
    pub smtp_server: Seq<char>,
    pub account: (Seq<char>, Seq<char>),
    pub password: Seq<char>,
}

impl View for EmailCredentials {
    type V = EmailCredentialsView;

    closed spec fn view(&self) -> EmailCredentialsView {
        EmailCredentialsView {
            smtp_server: self.smtp_server@,
            account: self.account@,
            password: self.password@,
        }
    }
}

impl EmailCredentials {
    /// The credentials with the given fields.
    pub fn new(smtp_server: SmtpServer, account: EmailAccount, password: SecretString) -> (credentials:
        Self)
        ensures
            credentials@ == (EmailCredentialsView {
                smtp_server: smtp_server@,
                account: account@,
                password: password@,
            }),
    {
        EmailCredentials { smtp_server, account, password }
    }

    /// The credentials to send with: the sender, the plaintext app password
    /// and the server of decrypted settings.
    pub fn from_settings(settings: &DecryptedEmailSettings) -> (credentials: Self)
        ensures
            credentials@ == (EmailCredentialsView {
                smtp_server: settings@.smtp_server,
                account: settings@.sender,
                password: settings@.smtp_app_password,
            }),
    {
        EmailCredentials {
            smtp_server: settings.smtp_server().clone(),
            account: EmailAccount::new(
                settings.sender().name().clone(),
                settings.sender().email().clone(),
            ),
            password: settings.smtp_app_password().clone(),
        }
    }

    /// The SMTP server.
    pub fn smtp_server(&self) -> (smtp_server: &SmtpServer)
        ensures
            smtp_server@ == self@.smtp_server,
    {
        &self.smtp_server
    }

    /// The account.
    pub fn account(&self) -> (account: &EmailAccount)
        ensures
            account@ == self@.account,
    {
        &self.account
    }

    /// The password.
    pub fn password(&self) -> (password: &SecretString)
        ensures
            password@ == self@.password,
    {
        &self.password
    }

    /// A sample value, for examples and tests.
    pub fn sample() -> (credentials: Self)
        ensures
            credentials@ == (EmailCredentialsView {
                smtp_server: "smtp.gmail.com"@,
                account: ("Alice Smith"@, "alice@example.com"@),
                password: "open sesame"@,
            }),
    {
        EmailCredentials {
            smtp_server: SmtpServer::default(),
            account: EmailAccount::sample_alice(),
            password: SecretString::new("open sesame".to_owned()),
        }
    }

    /// A second sample value, different from `sample`.
    pub fn sample_other() -> (credentials: Self)
        ensures
            credentials@ == (EmailCredentialsView {
                smtp_server: "smtp.gmail.com"@,
                account: ("Bob Johnson"@, "bob@example.com"@),
                password: "super_secret"@,
            }),
    {
        EmailCredentials {
            smtp_server: SmtpServer::default(),
            account: EmailAccount::sample_bob(),
            password: SecretString::new("super_secret".to_owned()),
        }
    }
}

impl From<DecryptedEmailSettings> for EmailCredentials {
    fn from(settings: DecryptedEmailSettings) -> (credentials: Self)
        ensures
            credentials@ == (EmailCredentialsView {
                smtp_server: settings@.smtp_server,
                account: settings@.sender,
                password: settings@.smtp_app_password,
            }),
    {
        EmailCredentials::from_settings(&settings)
    }
}

impl FromSpecImpl<DecryptedEmailSettings> for EmailCredentials {
    open spec fn obeys_from_spec() -> bool {
        false
    }

    closed spec fn from_spec(settings: DecryptedEmailSettings) -> Self {
        arbitrary()
    }
}

impl Clone for EmailCredentials {
    fn clone(&self) -> (copy: Self)
        ensures
            copy@ == self@,
    {
        EmailCredentials {
            smtp_server: self.smtp_server.clone(),
            account: self.account.clone(),
            password: self.password.clone(),
        }
    }
}

impl PartialEq for EmailCredentials {
    /// Two credentials are equal where server, account and password are; the
    /// passwords are exposed and compared as texts.
    fn eq(&self, other: &Self) -> (equal: bool) {
        self.smtp_server == other.smtp_server && self.account == other.account
            && self.password.same_secret(&other.password)
    }
}

impl PartialEqSpecImpl for EmailCredentials {
    open spec fn obeys_eq_spec() -> bool {
        true
    }

    open spec fn eq_spec(&self, other: &Self) -> bool {
        self@ == other@
    }
}

} // verus!
