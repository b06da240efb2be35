use indexmap::IndexSet;
use mejla::email::address_set::address_set_of;
use mejla::email::attachment_set::attachment_set_of;
use mejla::{
    Attachment, CryptoError, DecryptedEmailSettings, EmailAccount, EmailAddress,
    EmailCredentials, EncryptedAppPassword, EncryptedEmailSettings, Salt, SecretString,
    SmtpServer, Template, Zeroize,
};

#[test]
fn decrypted_sample_holds_its_fields() {
    let settings = DecryptedEmailSettings::sample();
    assert_eq!(settings.smtp_app_password().expose_secret(), "encryption password");
    assert_eq!(settings.salt(), &Salt::sample());
    assert_eq!(settings.template(), &Template::default());
    assert_eq!(settings.reply_to(), &None);
    assert_eq!(settings.smtp_server(), &SmtpServer::default());
    assert_eq!(settings.sender(), &EmailAccount::sample());
    assert_eq!(
        settings.recipients(),
        &address_set_of(vec![EmailAddress::sample_alice(), EmailAddress::sample_bob()])
    );
    assert_eq!(
        settings.cc_recipients(),
        &address_set_of(vec![EmailAddress::sample_carol()])
    );
    assert_eq!(
        settings.bcc_recipients(),
        &address_set_of(vec![EmailAddress::sample_dave(), EmailAddress::sample_erin()])
    );
    let first: Vec<String> = settings.recipients().iter().map(|a| a.to_string()).collect();
    assert_eq!(first, vec!["alice@example.com", "bob@example.com"]);
}

#[test]
fn decrypted_other_sample_holds_its_fields() {
    let settings = DecryptedEmailSettings::sample_other();
    assert_eq!(
        settings.smtp_app_password().expose_secret(),
        "another encryption password"
    );
    assert_eq!(settings.salt(), &Salt::sample_other());
    assert_eq!(settings.sender(), &EmailAccount::sample_other());
    assert_eq!(
        settings.recipients(),
        &address_set_of(vec![EmailAddress::sample_bob(), EmailAddress::sample_carol()])
    );
    assert_eq!(
        settings.cc_recipients(),
        &address_set_of(vec![EmailAddress::sample_dave()])
    );
    assert_eq!(
        settings.bcc_recipients(),
        &address_set_of(vec![EmailAddress::sample_erin(), EmailAddress::sample_alice()])
    );
}

#[test]
fn decrypted_settings_compare_every_field_and_the_exposed_secret() {
    assert!(DecryptedEmailSettings::sample() == DecryptedEmailSettings::sample());
    assert!(DecryptedEmailSettings::sample() != DecryptedEmailSettings::sample_other());
    let sample = DecryptedEmailSettings::sample();
    let other_secret = DecryptedEmailSettings::new(
        SecretString::from("encryption passwore"),
        sample.salt().clone(),
        sample.template().clone(),
        sample.reply_to().clone(),
        sample.smtp_server().clone(),
        sample.sender().clone(),
        sample.recipients().clone(),
        sample.cc_recipients().clone(),
        sample.bcc_recipients().clone(),
    );
    assert!(sample != other_secret);
    let other_salt = DecryptedEmailSettings::new(
        SecretString::from("encryption password"),
        Salt::sample_other(),
        sample.template().clone(),
        sample.reply_to().clone(),
        sample.smtp_server().clone(),
        sample.sender().clone(),
        sample.recipients().clone(),
        sample.cc_recipients().clone(),
        sample.bcc_recipients().clone(),
    );
    assert!(sample != other_salt);
}

#[test]
fn encrypted_sample_decrypts_with_its_encryption_password() {
    let encrypted = EncryptedEmailSettings::sample();
    let decrypted = encrypted
        .decrypt_smtp_app_password(SecretString::from("encryption password"))
        .unwrap();
    assert_eq!(decrypted.smtp_app_password().expose_secret(), "open sesame");
    assert_eq!(decrypted.salt(), encrypted.salt());
    assert_eq!(decrypted.template(), encrypted.template());
    assert_eq!(decrypted.reply_to(), encrypted.reply_to());
    assert_eq!(decrypted.smtp_server(), encrypted.smtp_server());
    assert_eq!(decrypted.sender(), encrypted.sender());
    assert_eq!(decrypted.recipients(), encrypted.recipients());
    assert_eq!(decrypted.cc_recipients(), encrypted.cc_recipients());
    assert_eq!(decrypted.bcc_recipients(), encrypted.bcc_recipients());
}

#[test]
fn encrypted_sample_rejects_a_wrong_encryption_password() {
    let encrypted = EncryptedEmailSettings::sample_other();
    let outcome = encrypted.decrypt_smtp_app_password(SecretString::from("encryption password"));
    assert!(matches!(outcome, Err(CryptoError::AesDecryptionFailed)));
    let decrypted = encrypted
        .decrypt_smtp_app_password(SecretString::from("another encryption password"))
        .unwrap();
    assert_eq!(decrypted.smtp_app_password().expose_secret(), "super_secret");
}

#[test]
fn corrupted_settings_fail_like_the_primitive() {
    let sample = DecryptedEmailSettings::sample();
    let too_short = EncryptedEmailSettings::new(
        EncryptedAppPassword::new(vec![0; 7]),
        Salt::sample(),
        sample.template().clone(),
        None,
        sample.smtp_server().clone(),
        sample.sender().clone(),
        sample.recipients().clone(),
        IndexSet::new(),
        IndexSet::new(),
    );
    assert!(matches!(
        too_short.decrypt_smtp_app_password(SecretString::from("encryption password")),
        Err(CryptoError::InvalidAesBytesTooShort {
            expected_at_least: 28,
            found: 7
        })
    ));
}

#[test]
fn encrypted_settings_compare_field_by_field() {
    let sample = EncryptedEmailSettings::sample();
    let copy = EncryptedEmailSettings::new(
        sample.smtp_app_password().clone(),
        sample.salt().clone(),
        sample.template().clone(),
        sample.reply_to().clone(),
        sample.smtp_server().clone(),
        sample.sender().clone(),
        sample.recipients().clone(),
        sample.cc_recipients().clone(),
        sample.bcc_recipients().clone(),
    );
    assert!(sample == copy);
    // A fresh nonce makes another sample differ in its encrypted password.
    assert!(sample != EncryptedEmailSettings::sample());
    assert!(sample != EncryptedEmailSettings::sample_other());
}

#[test]
fn compose_builds_the_email_and_the_credentials() {
    let settings = DecryptedEmailSettings::sample();
    let (email, credentials) = settings.compose(
        "Invoice 42".to_string(),
        "Please find attached.".to_string(),
        attachment_set_of(vec![Attachment::sample()]),
    );
    assert_eq!(email.subject(), "Invoice 42");
    assert_eq!(email.body(), "Please find attached.");
    assert_eq!(email.reply_to(), settings.reply_to());
    assert_eq!(email.public_recipients(), settings.recipients());
    assert_eq!(email.cc_recipients(), settings.cc_recipients());
    assert_eq!(email.bcc_recipients(), settings.bcc_recipients());
    assert_eq!(
        email.attachments(),
        &attachment_set_of(vec![Attachment::sample()])
    );
    assert_eq!(credentials.account(), settings.sender());
    assert_eq!(credentials.smtp_server(), settings.smtp_server());
    assert_eq!(credentials.password().expose_secret(), "encryption password");
}

#[test]
fn credentials_come_from_decrypted_settings() {
    let credentials = EmailCredentials::from(DecryptedEmailSettings::sample_other());
    assert_eq!(credentials.account(), &EmailAccount::sample_bob());
    assert_eq!(credentials.smtp_server(), &SmtpServer::gmail());
    assert_eq!(
        credentials.password().expose_secret(),
        "another encryption password"
    );
    let borrowed = EmailCredentials::from_settings(&DecryptedEmailSettings::sample_other());
    assert!(credentials == borrowed);
}

#[test]
fn zeroize_erases_the_secret_and_the_salt_of_settings() {
    let mut decrypted = DecryptedEmailSettings::sample();
    decrypted.zeroize();
    assert_eq!(decrypted.smtp_app_password().expose_secret(), "");
    assert_eq!(*decrypted.salt().as_bytes(), [0u8; 16]);
    assert_eq!(decrypted.sender(), &EmailAccount::sample());
    assert_eq!(decrypted.recipients().len(), 2);

    let sample = DecryptedEmailSettings::sample();
    let mut encrypted = EncryptedEmailSettings::new(
        EncryptedAppPassword::new(vec![1; 40]),
        Salt::sample(),
        sample.template().clone(),
        None,
        sample.smtp_server().clone(),
        sample.sender().clone(),
        sample.recipients().clone(),
        IndexSet::new(),
        IndexSet::new(),
    );
    encrypted.zeroize();
    assert!(encrypted.smtp_app_password().as_bytes().is_empty());
    assert_eq!(*encrypted.salt().as_bytes(), [0u8; 16]);
    assert_eq!(encrypted.smtp_server(), &SmtpServer::gmail());
}

#[test]
fn settings_with_the_same_recipients_in_another_order_are_equal() {
    let sample = DecryptedEmailSettings::sample();
    let reordered = DecryptedEmailSettings::new(
        SecretString::from("encryption password"),
        Salt::sample(),
        Template::default(),
        None,
        SmtpServer::default(),
        EmailAccount::sample(),
        address_set_of(vec![EmailAddress::sample_bob(), EmailAddress::sample_alice()]),
        address_set_of(vec![EmailAddress::sample_carol()]),
        address_set_of(vec![EmailAddress::sample_erin(), EmailAddress::sample_dave()]),
    );
    assert!(sample == reordered);
    let fewer = DecryptedEmailSettings::new(
        SecretString::from("encryption password"),
        Salt::sample(),
        Template::default(),
        None,
        SmtpServer::default(),
        EmailAccount::sample(),
        address_set_of(vec![EmailAddress::sample_alice()]),
        address_set_of(vec![EmailAddress::sample_carol()]),
        address_set_of(vec![EmailAddress::sample_dave(), EmailAddress::sample_erin()]),
    );
    assert!(sample != fewer);
}

#[test]
fn with_sender_replaces_the_sender_only() {
    let settings = DecryptedEmailSettings::sample().with_sender(EmailAccount::sample_bob());
    assert_eq!(settings.sender(), &EmailAccount::sample_bob());
    assert_eq!(settings.smtp_app_password().expose_secret(), "encryption password");
    assert_eq!(settings.salt(), &Salt::sample());
    assert_eq!(settings.recipients().len(), 2);
}
