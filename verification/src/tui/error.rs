use crate::encryption::error::decimal_string;
use crate::encryption::error::decimal;
use core::fmt::Display;
use vstd::prelude::*;
use vstd::string::{to_string_from_display_ensures, StringExecFns};

verus! {

/// Errors that can occur while collecting email input through terminal prompts.
#[derive(Debug)]
pub enum Error {
    PasswordDoesNotMatch,
    EmailPasswordTooShort { min_length: usize, actual_length: usize },
    EmailAtomTemplateError { underlying: String },
    InvalidEmailAddress { role: String, underlying: String },
    InvalidNameForEmail { role: String, underlying: String },
    InvalidPasswordForEmail { purpose: String, underlying: String },
    RecipientAddressesCannotBeEmpty,
    InvalidSmtpServer { underlying: String },
}

impl Error {
    /// The error of a template that could not be read, with its cause.
    pub fn email_atom_template_error<D: Display>(underlying: D) -> (error: Self)
        ensures
            error matches Error::EmailAtomTemplateError { underlying: text }
                && to_string_from_display_ensures::<D>(&underlying, text),
    {
        Error::EmailAtomTemplateError { underlying: underlying.to_string() }
    }

    /// The error of a server that could not be read, with its cause.
    pub fn invalid_smtp_server<D: Display>(underlying: D) -> (error: Self)
        ensures
            error matches Error::InvalidSmtpServer { underlying: text }
                && to_string_from_display_ensures::<D>(&underlying, text),
    {
        Error::InvalidSmtpServer { underlying: underlying.to_string() }
    }

    /// A function that makes the error of an invalid email address for the
    /// role out of the underlying error.
    pub fn invalid_email_address_for_role<E: Display, R: Display>(role: R) -> (make: impl FnOnce(
        E,
    ) -> Self)
        ensures
            forall|underlying: E| make.requires((underlying,)),
            forall|underlying: E, error: Self| #[trigger]
                make.ensures((underlying,), error) ==> (error matches Error::InvalidEmailAddress {
                    role: role_text,
                    underlying: text,
                } && to_string_from_display_ensures::<R>(&role, role_text)
                    && to_string_from_display_ensures::<E>(&underlying, text)),
    {
        let role_text = role.to_string();
        move |underlying: E| -> (error: Self)
            ensures
                error matches Error::InvalidEmailAddress { role: r, underlying: text }
                    && r == role_text && to_string_from_display_ensures::<E>(&underlying, text),
            { Error::InvalidEmailAddress { role: role_text, underlying: underlying.to_string() } }
    }

    /// A function that makes the error of an invalid name for the role out of
    /// the underlying error.
    pub fn invalid_name_for_email_for_role<E: Display, R: Display>(role: R) -> (make: impl FnOnce(
        E,
    ) -> Self)
        ensures
            forall|underlying: E| make.requires((underlying,)),
            forall|underlying: E, error: Self| #[trigger]
                make.ensures((underlying,), error) ==> (error matches Error::InvalidNameForEmail {
                    role: role_text,
                    underlying: text,
                } && to_string_from_display_ensures::<R>(&role, role_text)
                    && to_string_from_display_ensures::<E>(&underlying, text)),
    {
        let role_text = role.to_string();
        move |underlying: E| -> (error: Self)
            ensures
                error matches Error::InvalidNameForEmail { role: r, underlying: text }
                    && r == role_text && to_string_from_display_ensures::<E>(&underlying, text),
            { Error::InvalidNameForEmail { role: role_text, underlying: underlying.to_string() } }
    }

    /// A function that makes the error of an invalid password for the purpose
    /// out of the underlying error.
    pub fn invalid_password_for_email_purpose<E: Display, P: Display>(purpose: P) -> (make:
        impl FnOnce(E) -> Self)
        ensures
            forall|underlying: E| make.requires((underlying,)),
            forall|underlying: E, error: Self| #[trigger]
                make.ensures((underlying,), error) ==> (error matches Error::InvalidPasswordForEmail {
                    purpose: purpose_text,
                    underlying: text,
                } && to_string_from_display_ensures::<P>(&purpose, purpose_text)
                    && to_string_from_display_ensures::<E>(&underlying, text)),
    {
        let purpose_text = purpose.to_string();
        move |underlying: E| -> (error: Self)
            ensures
                error matches Error::InvalidPasswordForEmail { purpose: p, underlying: text }
                    && p == purpose_text && to_string_from_display_ensures::<E>(&underlying, text),
            {
                Error::InvalidPasswordForEmail {
                    purpose: purpose_text,
                    underlying: underlying.to_string(),
                }
            }
    }

    /// The text of the message that describes this error.
    pub open spec fn message(&self) -> Seq<char> {
        match *self {
            Error::PasswordDoesNotMatch => "Passwords do not match"@,
            Error::EmailPasswordTooShort { min_length, actual_length } => {
                "Email password is too short, expected at least "@ + decimal(min_length as nat)
                    + " characters, but found "@ + decimal(actual_length as nat)
            },
            Error::EmailAtomTemplateError { underlying } => {
                "Failed to parse email atom template: "@ + underlying@
            },
            Error::InvalidEmailAddress { role, underlying } => {
                "Invalid email address for: "@ + role@ + ", because: "@ + underlying@
            },
            Error::InvalidNameForEmail { role, underlying } => {
                "Invalid name for email for: "@ + role@ + ", because: "@ + underlying@
            },
            Error::InvalidPasswordForEmail { purpose, underlying } => {
                "Invalid password for email "@ + purpose@ + ", because: "@ + underlying@
            },
            Error::RecipientAddressesCannotBeEmpty => "Recipient addresses cannot be empty"@,
            Error::InvalidSmtpServer { underlying } => {
                "Failed to parse SMTP Server, because: "@ + underlying@
            },
        }
    }

    /// Renders the message of this error.
    pub fn to_string(&self) -> (text: String)
        ensures
            text@ == self.message(),
    {
        match self {
            Error::PasswordDoesNotMatch => String::from_str("Passwords do not match"),
            Error::EmailPasswordTooShort { min_length, actual_length } => {
                let mut text = String::from_str("Email password is too short, expected at least ");
                let min = decimal_string(*min_length);
                text.append(min.as_str());
                text.append(" characters, but found ");
                let actual = decimal_string(*actual_length);
                text.append(actual.as_str());
                text
            },
            Error::EmailAtomTemplateError { underlying } => {
                let mut text = String::from_str("Failed to parse email atom template: ");
                text.append(underlying.as_str());
                text
            },
            Error::InvalidEmailAddress { role, underlying } => {
                let mut text = String::from_str("Invalid email address for: ");
                text.append(role.as_str());
                text.append(", because: ");
                text.append(underlying.as_str());
                text
            },
            Error::InvalidNameForEmail { role, underlying } => {
                let mut text = String::from_str("Invalid name for email for: ");
                text.append(role.as_str());
                text.append(", because: ");
                text.append(underlying.as_str());
                text
            },
            Error::InvalidPasswordForEmail { purpose, underlying } => {
                let mut text = String::from_str("Invalid password for email ");
                text.append(purpose.as_str());
                text.append(", because: ");
                text.append(underlying.as_str());
                text
            },
            Error::RecipientAddressesCannotBeEmpty => String::from_str(
                "Recipient addresses cannot be empty",
            ),
            Error::InvalidSmtpServer { underlying } => {
                let mut text = String::from_str("Failed to parse SMTP Server, because: ");
                text.append(underlying.as_str());
                text
            },
        }
    }
}

} // verus!
