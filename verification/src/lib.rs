//! Storage of SMTP credentials at rest: password-based key derivation,
//! authenticated encryption of one secret, and settings that exist in an
//! encrypted and in a decrypted form.

pub mod email;
pub mod encryption;
pub mod tui;

pub use email::{
    Attachment, DecryptedEmailSettings, Email, EmailAccount, EmailAddress, EmailAddressError,
    EmailCredentials, EmailSettings, EmailSettingsSelector, EncryptedEmailSettings, SmtpServer,
    Template, TemplatePart,
};
pub use encryption::{
    AesGcm256, AesGcmSealedBox, AesNonce, CryptoError, CryptoResult, EncryptedAppPassword,
    EncryptionKey, PbHkdfSha256, Salt, SecretString, Zeroize,
};
