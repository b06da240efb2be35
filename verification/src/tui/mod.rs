pub mod build_email_settings;
pub mod email_address;
pub mod error;
pub mod password;
pub mod template;
pub mod util;

pub use build_email_settings::{ask_for_email, select_or_default};
pub use email_address::{
    add_answered_address, next_default_address, wants_another_address, AddressStep,
    EmailAddressRole,
};
pub use error::Error;
pub use password::{
    ask_for_email_encryption_password_with_confirmation_in_env, ask_for_password,
    ask_for_password_once_with_length, confirm_password, env_encryption_password,
    format_password_prompt, validate, DEFAULT_EMAIL_ENCRYPTION_PASSWORD_ENV_VAR,
    PASSWORD_MIN_LENGTH,
};
pub use template::ask_for_template;
pub use util::format_help_skippable;
