pub mod aes_gcm_256;
pub mod aes_gcm_sealed_box;
pub mod bytes;
pub mod encrypted_app_password;
pub mod encryption_key;
pub mod erase;
pub mod error;
pub mod hex;
pub mod pb_hkdf;
pub mod salt;
pub mod secret;

pub use aes_gcm_256::AesGcm256;
pub use aes_gcm_sealed_box::{AesGcmSealedBox, AesNonce};
pub use encrypted_app_password::EncryptedAppPassword;
pub use encryption_key::EncryptionKey;
pub use erase::Zeroize;
pub use error::{CryptoError, CryptoResult};
pub use pb_hkdf::PbHkdfSha256;
pub use salt::Salt;
pub use secret::SecretString;
