use vstd::prelude::*;

verus! {

/// Which part of the email settings an edit is about.
#[derive(Debug, Clone, Copy, PartialEq, Eq, Structural)]
pub enum EmailSettingsSelector {
    /// All editable email settings.
    All,
    /// The SMTP app password value.
    AppPassword,
    /// The encryption password for encrypted secrets.
    EncryptionPassword,
    /// The email subject/body template.
    Template,
    /// The SMTP server host configuration.
    SmtpServer,
    /// Reply-to email address.
    ReplyTo,
    /// Sender account/address.
    Sender,
    /// Primary recipients.
    Recipients,
    /// CC recipients.
    CcRecipients,
    /// BCC recipients.
    BccRecipients,
}

impl EmailSettingsSelector {
    /// Whether the selection touches the secret: everything, the app
    /// password, or the encryption password.
    pub open spec fn spec_requires_encryption_password(&self) -> bool {
        *self == EmailSettingsSelector::All || *self == EmailSettingsSelector::AppPassword || *self
            == EmailSettingsSelector::EncryptionPassword
    }

    /// Whether the selection covers the target: it is everything, or it is
    /// the target itself.
    pub open spec fn spec_includes(&self, target: Self) -> bool {
        *self == EmailSettingsSelector::All || *self == target
    }

    /// Returns whether selecting this field requires the encryption password.
    #[verifier::when_used_as_spec(spec_requires_encryption_password)]
    pub fn requires_encryption_password(&self) -> (required: bool)
        ensures
            required == self.spec_requires_encryption_password(),
    {
        match self {
            EmailSettingsSelector::All
            | EmailSettingsSelector::AppPassword
            | EmailSettingsSelector::EncryptionPassword => true,
            EmailSettingsSelector::Template
            | EmailSettingsSelector::SmtpServer
            | EmailSettingsSelector::ReplyTo
            | EmailSettingsSelector::Sender
            | EmailSettingsSelector::Recipients
            | EmailSettingsSelector::CcRecipients
            | EmailSettingsSelector::BccRecipients => false,
        }
    }

    /// Returns whether this selection covers the target field.
    #[verifier::when_used_as_spec(spec_includes)]
    pub fn includes(&self, target: Self) -> (included: bool)
        ensures
            included == self.spec_includes(target),
    {
        match self {
            EmailSettingsSelector::All => true,
            EmailSettingsSelector::AppPassword => matches!(
                target,
                EmailSettingsSelector::AppPassword
            ),
            EmailSettingsSelector::EncryptionPassword => matches!(
                target,
                EmailSettingsSelector::EncryptionPassword
            ),
            EmailSettingsSelector::Template => matches!(target, EmailSettingsSelector::Template),
            EmailSettingsSelector::SmtpServer => matches!(
                target,
                EmailSettingsSelector::SmtpServer
            ),
            EmailSettingsSelector::ReplyTo => matches!(target, EmailSettingsSelector::ReplyTo),
            EmailSettingsSelector::Sender => matches!(target, EmailSettingsSelector::Sender),
            EmailSettingsSelector::Recipients => matches!(
                target,
                EmailSettingsSelector::Recipients
            ),
            EmailSettingsSelector::CcRecipients => matches!(
                target,
                EmailSettingsSelector::CcRecipients
            ),
            EmailSettingsSelector::BccRecipients => matches!(
                target,
                EmailSettingsSelector::BccRecipients
            ),
        }
    }

    /// A selection that does not touch the secret covers neither the app
    /// password nor the encryption password.
    pub proof fn lemma_non_secret_selection_excludes_secrets(self)
        requires
            !self.spec_requires_encryption_password(),
        ensures
            !self.spec_includes(EmailSettingsSelector::AppPassword),
            !self.spec_includes(EmailSettingsSelector::EncryptionPassword),
    {
    }

    /// Selecting everything covers every field and touches the secret.
    pub proof fn lemma_all_includes_everything(target: Self)
        ensures
            EmailSettingsSelector::All.spec_includes(target),
            EmailSettingsSelector::All.spec_requires_encryption_password(),
    {
    }
}

} // verus!
