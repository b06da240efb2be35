[package]
name = "mejla"
version = "0.1.0"
edition = "2021"
publish = false

[dependencies]
aes-gcm = "=0.11.1"
hkdf = "=0.13.0"
pbkdf2 = "=0.13.0"
sha2 = "=0.11.1"
rand = "=0.10.3"
zeroize = "=1.9.1"
indexmap = { version = "=2.14.2", features = ["serde"] }
lettre = { version = "=0.11.23", default-features = false, features = ["builder", "smtp-transport", "rustls-tls"] }
serde = { version = "=1.0.229", features = ["derive"] }
serde_with = { version = "=3.24.0", features = ["hex"] }
thiserror = "=2.0.21"
inquire = "=0.9.4"
rpassword = "=7.5.4"
log = "=0.4.34"
