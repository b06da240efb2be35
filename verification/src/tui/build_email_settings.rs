use crate::email::address_set::{addresses, is_empty_address_set};
use crate::email::email_account::{clone_optional_account, optional_account_view, EmailAccount};
use crate::email::email_address::EmailAddress;
use crate::email::email_settings::{EmailSettings, EncryptedEmailSettings};
use crate::email::email_settings_selector::EmailSettingsSelector;
use crate::email::smtp_server::SmtpServer;
use crate::email::template::Template;
use crate::encryption::aes_gcm_256::max_plaintext_len;
use crate::encryption::encrypted_app_password::EncryptedAppPassword;
use crate::encryption::pb_hkdf::PbHkdfSha256;
use crate::encryption::salt::Salt;
use crate::encryption::secret::SecretString;
use indexmap::IndexSet;
use vstd::prelude::*;

verus! {

/// Whether an edit with the selector asks for a new value of the target
/// field: it does where no selector is given, and where the selector covers
/// the field.
pub open spec fn selected(
    selector: Option<EmailSettingsSelector>,
    target: EmailSettingsSelector,
) -> bool {
    match selector {
        Some(selector) => selector.spec_includes(target),
        None => true,
    }
}

/// Whether an edit with the selector keeps the stored secret: it does where
/// a selector is given that touches neither the app password nor the
/// encryption password.
pub open spec fn keeps_secret(selector: Option<EmailSettingsSelector>) -> bool {
    match selector {
        Some(selector) => !selector.spec_requires_encryption_password(),
        None => false,
    }
}

/// Selector gating, for a single field that is not secret: an edit with such
/// a selector keeps the stored secret, asks for that field, and asks for no
/// other field.
pub proof fn lemma_non_secret_selector_keeps_secret(
    selector: EmailSettingsSelector,
    target: EmailSettingsSelector,
)
    requires
        !selector.spec_requires_encryption_password(),
    ensures
        keeps_secret(Some(selector)),
        selected(Some(selector), target) <==> target == selector,
{
}

/// Selector gating, for a selector that touches the secret and for no
/// selector at all: such an edit asks for a new secret. With the selector
/// for everything, and with no selector, it asks for every field.
pub proof fn lemma_secret_selector_replaces_secret(
    selector: EmailSettingsSelector,
    target: EmailSettingsSelector,
)
    requires
        selector.spec_requires_encryption_password(),
    ensures
        !keeps_secret(Some(selector)),
        !keeps_secret(None),
        selected(Some(EmailSettingsSelector::All), target),
        selected(None, target),
{
}

/// Asks for a new value of the target field where the selector covers the
/// field, with the current value as the default, and keeps a copy of the
/// current value where it does not.
pub fn select_or_default<T, E, F>(
    selector: Option<EmailSettingsSelector>,
    target: EmailSettingsSelector,
    default: &T,
    builder: F,
) -> (value: Result<T, E>) where F: FnOnce(&T) -> Result<T, E>, T: Clone
    requires
        selected(selector, target) ==> builder.requires((default,)),
    ensures
        selected(selector, target) ==> builder.ensures((default,), value),
        !selected(selector, target) ==> value is Ok && cloned(*default, value->Ok_0),
{
    let is_selected = match selector {
        Some(selector) => selector.includes(target),
        None => true,
    };
    if is_selected {
        builder(default)
    } else {
        Ok(default.clone())
    }
}

/// Whether the callback for the server, asked with the current server, may
/// have answered with the new one; where the field is not selected, the new
/// one is the current one.
pub open spec fn server_edited<E, F: FnOnce(&SmtpServer) -> Result<SmtpServer, E>>(
    selector: Option<EmailSettingsSelector>,
    current: Seq<char>,
    ask: F,
    outcome: Result<Seq<char>, E>,
) -> bool {
    if selected(selector, EmailSettingsSelector::SmtpServer) {
        exists|default: SmtpServer, answer: Result<SmtpServer, E>|
            default@ == current && #[trigger] ask.ensures((&default,), answer) && outcome == (
            match answer {
                Ok(value) => Ok::<Seq<char>, E>(value@),
                Err(error) => Err(error),
            })
    } else {
        outcome == Ok::<Seq<char>, E>(current)
    }
}

/// The same for an account, under the selector of its field.
pub open spec fn account_edited<E, F: FnOnce(&EmailAccount) -> Result<EmailAccount, E>>(
    selector: Option<EmailSettingsSelector>,
    target: EmailSettingsSelector,
    current: (Seq<char>, Seq<char>),
    ask: F,
    outcome: Result<(Seq<char>, Seq<char>), E>,
) -> bool {
    if selected(selector, target) {
        exists|default: EmailAccount, answer: Result<EmailAccount, E>|
            default@ == current && #[trigger] ask.ensures((&default,), answer) && outcome == (
            match answer {
                Ok(value) => Ok::<(Seq<char>, Seq<char>), E>(value@),
                Err(error) => Err(error),
            })
    } else {
        outcome == Ok::<(Seq<char>, Seq<char>), E>(current)
    }
}

/// The same for the template.
pub open spec fn template_edited<E, F: FnOnce(&Template) -> Result<Template, E>>(
    selector: Option<EmailSettingsSelector>,
    current: (Seq<char>, Seq<char>),
    ask: F,
    outcome: Result<(Seq<char>, Seq<char>), E>,
) -> bool {
    if selected(selector, EmailSettingsSelector::Template) {
        exists|default: Template, answer: Result<Template, E>|
            default@ == current && #[trigger] ask.ensures((&default,), answer) && outcome == (
            match answer {
                Ok(value) => Ok::<(Seq<char>, Seq<char>), E>(value@),
                Err(error) => Err(error),
            })
    } else {
        outcome == Ok::<(Seq<char>, Seq<char>), E>(current)
    }
}

/// The view of a borrowed account that may be absent.
pub open spec fn optional_account_ref_view(account: Option<&EmailAccount>) -> Option<
    (Seq<char>, Seq<char>),
> {
    match account {
        Some(account) => Some(account@),
        None => None,
    }
}

/// The same for the reply-to account, which may be absent.
pub open spec fn reply_to_edited<
    E,
    F: FnOnce(Option<&EmailAccount>) -> Result<Option<EmailAccount>, E>,
>(
    selector: Option<EmailSettingsSelector>,
    current: Option<(Seq<char>, Seq<char>)>,
    ask: F,
    outcome: Result<Option<(Seq<char>, Seq<char>)>, E>,
) -> bool {
    if selected(selector, EmailSettingsSelector::ReplyTo) {
        exists|default: Option<&EmailAccount>, answer: Result<Option<EmailAccount>, E>|
            optional_account_ref_view(default) == current && #[trigger] ask.ensures(
                (default,),
                answer,
            ) && outcome == (match answer {
                Ok(value) => Ok::<Option<(Seq<char>, Seq<char>)>, E>(optional_account_view(value)),
                Err(error) => Err(error),
            })
    } else {
        outcome == Ok::<Option<(Seq<char>, Seq<char>)>, E>(current)
    }
}

/// The same for a set of recipients, under the selector of its field.
pub open spec fn recipients_edited<
    E,
    F: FnOnce(&IndexSet<EmailAddress>) -> Result<IndexSet<EmailAddress>, E>,
>(
    selector: Option<EmailSettingsSelector>,
    target: EmailSettingsSelector,
    current: Seq<Seq<char>>,
    ask: F,
    outcome: Result<Seq<Seq<char>>, E>,
) -> bool {
    if selected(selector, target) {
        exists|default: IndexSet<EmailAddress>, answer: Result<IndexSet<EmailAddress>, E>|
            addresses(default) == current && #[trigger] ask.ensures((&default,), answer)
                && outcome == (match answer {
                Ok(value) => Ok::<Seq<Seq<char>>, E>(addresses(value)),
                Err(error) => Err(error),
            })
    } else {
        outcome == Ok::<Seq<Seq<char>>, E>(current)
    }
}

/// Whether a new secret may have come out of the two questions for it: the
/// app password that was entered is what the new encrypted password
/// decrypts to, under the key of the encryption password that was entered
/// and of the new salt.
pub open spec fn secret_replaced<
    E,
    AP: FnOnce(bool, &str, &str) -> Result<SecretString, E>,
    AE: FnOnce(bool) -> Result<SecretString, E>,
>(ask_for_password: AP, ask_for_encryption_password: AE, encrypted: Seq<u8>, salt: Seq<u8>) -> bool {
    exists|prompt: &str, help: &str, app_password: SecretString, encryption_password: SecretString|
        prompt@ == "SMTP App Password"@ && help@ == "Used to authenticate sender account"@
            && #[trigger] ask_for_password.ensures((true, prompt, help), Ok(app_password))
            && #[trigger] ask_for_encryption_password.ensures((true,), Ok(encryption_password))
            && EncryptedAppPassword::decrypted(
            encrypted,
            PbHkdfSha256::derived_key(encryption_password.bytes(), salt),
        ) == Ok::<Seq<char>, crate::encryption::error::CryptoError>(app_password@)
}

/// Whether one of the two questions for a new secret may have failed with
/// the error.
pub open spec fn secret_failed<
    E,
    AP: FnOnce(bool, &str, &str) -> Result<SecretString, E>,
    AE: FnOnce(bool) -> Result<SecretString, E>,
>(ask_for_password: AP, ask_for_encryption_password: AE, error: E) -> bool {
    ||| exists|prompt: &str, help: &str|
        prompt@ == "SMTP App Password"@ && help@ == "Used to authenticate sender account"@
            && #[trigger] ask_for_password.ensures((true, prompt, help), Err(error))
    ||| ask_for_encryption_password.ensures((true,), Err(error))
}

/// Edits stored settings. Each field that the selector covers is asked for
/// through its callback, with the current value as the default; every other
/// field is kept. The secret is asked for, and encrypted under a fresh salt,
/// unless a selector is given that touches neither the app password nor the
/// encryption password: then the encrypted password and the salt are carried
/// over as they are. Settings without a primary recipient are rejected with
/// the error that `recipients_empty_error` makes. The first error of a
/// callback ends the edit.
pub fn ask_for_email<E, CR, AP, AE, ASrv, ASnd, ATpl, ARep, ARcp, ACc, ABcc, RE, OB>(
    default: EncryptedEmailSettings,
    data_selector: Option<EmailSettingsSelector>,
    config_render: CR,
    ask_for_password: AP,
    ask_for_email_encryption_password_with_confirmation: AE,
    ask_for_smtp_server: ASrv,
    ask_for_sender: ASnd,
    ask_for_template: ATpl,
    ask_for_reply_to: ARep,
    ask_for_recipients: ARcp,
    ask_for_cc_recipients: ACc,
    ask_for_bcc_recipients: ABcc,
    recipients_empty_error: RE,
    on_built: OB,
) -> (outcome: Result<EncryptedEmailSettings, E>) where
    CR: FnOnce(),
    AP: FnOnce(bool, &str, &str) -> Result<SecretString, E>,
    AE: FnOnce(bool) -> Result<SecretString, E>,
    ASrv: FnOnce(&SmtpServer) -> Result<SmtpServer, E>,
    ASnd: FnOnce(&EmailAccount) -> Result<EmailAccount, E>,
    ATpl: FnOnce(&Template) -> Result<Template, E>,
    ARep: FnOnce(Option<&EmailAccount>) -> Result<Option<EmailAccount>, E>,
    ARcp: FnOnce(&IndexSet<EmailAddress>) -> Result<IndexSet<EmailAddress>, E>,
    ACc: FnOnce(&IndexSet<EmailAddress>) -> Result<IndexSet<EmailAddress>, E>,
    ABcc: FnOnce(&IndexSet<EmailAddress>) -> Result<IndexSet<EmailAddress>, E>,
    RE: FnOnce() -> E,
    OB: FnOnce(&EncryptedEmailSettings),

    requires
        config_render.requires(()),
        forall|confirm: bool, prompt: &str, help: &str| #[trigger]
            ask_for_password.requires((confirm, prompt, help)),
        forall|confirm: bool, prompt: &str, help: &str, secret: SecretString| #[trigger]
            ask_for_password.ensures((confirm, prompt, help), Ok(secret)) ==> secret.bytes().len()
                <= max_plaintext_len(),
        forall|confirm: bool| #[trigger]
            ask_for_email_encryption_password_with_confirmation.requires((confirm,)),
        forall|current: &SmtpServer| #[trigger] ask_for_smtp_server.requires((current,)),
        forall|current: &EmailAccount| #[trigger] ask_for_sender.requires((current,)),
        forall|current: &Template| #[trigger] ask_for_template.requires((current,)),
        forall|current: Option<&EmailAccount>| #[trigger] ask_for_reply_to.requires((current,)),
        forall|current: &IndexSet<EmailAddress>| #[trigger] ask_for_recipients.requires((current,)),
        forall|current: &IndexSet<EmailAddress>| #[trigger]
            ask_for_cc_recipients.requires((current,)),
        forall|current: &IndexSet<EmailAddress>| #[trigger]
            ask_for_bcc_recipients.requires((current,)),
        recipients_empty_error.requires(()),
        forall|built: &EncryptedEmailSettings| #[trigger] on_built.requires((built,)),
    ensures
        config_render.ensures((), ()),
        match outcome {
            Ok(settings) => {
                &&& if keeps_secret(data_selector) {
                    settings@.smtp_app_password == default@.smtp_app_password && settings@.salt
                        == default@.salt
                } else {
                    secret_replaced(
                        ask_for_password,
                        ask_for_email_encryption_password_with_confirmation,
                        settings@.smtp_app_password,
                        settings@.salt,
                    )
                }
                &&& server_edited(
                    data_selector,
                    default@.smtp_server,
                    ask_for_smtp_server,
                    Ok(settings@.smtp_server),
                )
                &&& account_edited(
                    data_selector,
                    EmailSettingsSelector::Sender,
                    default@.sender,
                    ask_for_sender,
                    Ok(settings@.sender),
                )
                &&& template_edited(
                    data_selector,
                    default@.template,
                    ask_for_template,
                    Ok(settings@.template),
                )
                &&& reply_to_edited(
                    data_selector,
                    default@.reply_to,
                    ask_for_reply_to,
                    Ok(settings@.reply_to),
                )
                &&& recipients_edited(
                    data_selector,
                    EmailSettingsSelector::Recipients,
                    default@.recipients,
                    ask_for_recipients,
                    Ok(settings@.recipients),
                )
                &&& settings@.recipients.len() > 0
                &&& recipients_edited(
                    data_selector,
                    EmailSettingsSelector::CcRecipients,
                    default@.cc_recipients,
                    ask_for_cc_recipients,
                    Ok(settings@.cc_recipients),
                )
                &&& recipients_edited(
                    data_selector,
                    EmailSettingsSelector::BccRecipients,
                    default@.bcc_recipients,
                    ask_for_bcc_recipients,
                    Ok(settings@.bcc_recipients),
                )
                &&& on_built.ensures((&settings,), ())
            },
            Err(error) => {
                ||| !keeps_secret(data_selector) && secret_failed(
                    ask_for_password,
                    ask_for_email_encryption_password_with_confirmation,
                    error,
                )
                ||| server_edited(
                    data_selector,
                    default@.smtp_server,
                    ask_for_smtp_server,
                    Err(error),
                )
                ||| account_edited(
                    data_selector,
                    EmailSettingsSelector::Sender,
                    default@.sender,
                    ask_for_sender,
                    Err(error),
                )
                ||| template_edited(data_selector, default@.template, ask_for_template, Err(error))
                ||| reply_to_edited(data_selector, default@.reply_to, ask_for_reply_to, Err(error))
                ||| recipients_edited(
                    data_selector,
                    EmailSettingsSelector::Recipients,
                    default@.recipients,
                    ask_for_recipients,
                    Err(error),
                )
                ||| (recipients_edited(
                    data_selector,
                    EmailSettingsSelector::Recipients,
                    default@.recipients,
                    ask_for_recipients,
                    Ok(Seq::<Seq<char>>::empty()),
                ) && recipients_empty_error.ensures((), error))
                ||| recipients_edited(
                    data_selector,
                    EmailSettingsSelector::CcRecipients,
                    default@.cc_recipients,
                    ask_for_cc_recipients,
                    Err(error),
                )
                ||| recipients_edited(
                    data_selector,
                    EmailSettingsSelector::BccRecipients,
                    default@.bcc_recipients,
                    ask_for_bcc_recipients,
                    Err(error),
                )
            },
        },
{
    config_render();

    let is_editing_but_skip_secrets = match data_selector {
        Some(selector) => !selector.requires_encryption_password(),
        None => false,
    };

    let (salt, app_password_encrypted) = if is_editing_but_skip_secrets {
        (default.salt().clone(), default.smtp_app_password().clone())
    } else {
        let app_password_plaintext = match ask_for_password(
            true,
            "SMTP App Password",
            "Used to authenticate sender account",
        ) {
            Ok(secret) => secret,
            Err(error) => {
                return Err(error);
            },
        };
        let salt = Salt::generate();
        let encryption_password = match ask_for_email_encryption_password_with_confirmation(true) {
            Ok(secret) => secret,
            Err(error) => {
                return Err(error);
            },
        };
        let encrypted = EncryptedAppPassword::new_by_deriving_and_encrypting(
            app_password_plaintext,
            encryption_password,
            &salt,
        );
        (salt, encrypted)
    };

    let smtp_server = match select_or_default(
        data_selector,
        EmailSettingsSelector::SmtpServer,
        default.smtp_server(),
        ask_for_smtp_server,
    ) {
        Ok(value) => value,
        Err(error) => {
            return Err(error);
        },
    };

    let sender = match select_or_default(
        data_selector,
        EmailSettingsSelector::Sender,
        default.sender(),
        ask_for_sender,
    ) {
        Ok(value) => value,
        Err(error) => {
            return Err(error);
        },
    };

    let template = match select_or_default(
        data_selector,
        EmailSettingsSelector::Template,
        default.template(),
        ask_for_template,
    ) {
        Ok(value) => value,
        Err(error) => {
            return Err(error);
        },
    };

    let asks_for_reply_to = match data_selector {
        Some(selector) => selector.includes(EmailSettingsSelector::ReplyTo),
        None => true,
    };
    let reply_to = if asks_for_reply_to {
        match ask_for_reply_to(default.reply_to().as_ref()) {
            Ok(value) => value,
            Err(error) => {
                return Err(error);
            },
        }
    } else {
        clone_optional_account(default.reply_to())
    };

    let recipients = match select_or_default(
        data_selector,
        EmailSettingsSelector::Recipients,
        default.recipients(),
        ask_for_recipients,
    ) {
        Ok(value) => value,
        Err(error) => {
            return Err(error);
        },
    };

    if is_empty_address_set(&recipients) {
        assert(addresses(recipients) =~= Seq::<Seq<char>>::empty());
        return Err(recipients_empty_error());
    }

    let cc_recipients = match select_or_default(
        data_selector,
        EmailSettingsSelector::CcRecipients,
        default.cc_recipients(),
        ask_for_cc_recipients,
    ) {
        Ok(value) => value,
        Err(error) => {
            return Err(error);
        },
    };

    let bcc_recipients = match select_or_default(
        data_selector,
        EmailSettingsSelector::BccRecipients,
        default.bcc_recipients(),
        ask_for_bcc_recipients,
    ) {
        Ok(value) => value,
        Err(error) => {
            return Err(error);
        },
    };

    let email_settings = EmailSettings::new(
        app_password_encrypted,
        salt,
        template,
        reply_to,
        smtp_server,
        sender,
        recipients,
        cc_recipients,
        bcc_recipients,
    );

    on_built(&email_settings);

    Ok(email_settings)
}

} // verus!
