pub mod address_set;
pub mod attachment;
pub mod attachment_set;
pub mod email;
pub mod email_account;
pub mod email_address;
pub mod email_credentials;
pub mod email_settings;
pub mod email_settings_selector;
pub mod smtp_server;
pub mod template;
pub mod template_part;

pub use attachment::Attachment;
pub use email::Email;
pub use email_account::EmailAccount;
pub use email_address::{EmailAddress, EmailAddressError};
pub use email_credentials::EmailCredentials;
pub use email_settings::{DecryptedEmailSettings, EmailSettings, EncryptedEmailSettings};
pub use email_settings_selector::EmailSettingsSelector;
pub use smtp_server::SmtpServer;
pub use template::Template;
pub use template_part::TemplatePart;
