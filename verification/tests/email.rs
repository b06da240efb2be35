use indexmap::IndexSet;
use mejla::email::address_set::{address_set_of, is_empty_address_set};
use mejla::email::attachment_set::attachment_set_of;
use mejla::{
    Attachment, Email, EmailAccount, EmailAddress, EmailAddressError, EmailCredentials,
    SecretString, SmtpServer, Template, TemplatePart,
};

fn address(text: &str) -> EmailAddress {
    EmailAddress::from_str(text).unwrap()
}

#[test]
fn pdf_content_type_is_applied() {
    let attachment = Attachment::pdf("a.pdf", vec![1, 2, 3]);
    let content_type = lettre::message::header::ContentType::parse(attachment.mime_type())
        .expect("valid content type");
    let single_part = lettre::message::Attachment::new(attachment.name().clone())
        .body(attachment.data().clone(), content_type);
    let formatted = String::from_utf8(single_part.formatted()).expect("utf8 email headers");
    assert!(formatted.contains("application/pdf"));
}

#[test]
fn attachment_constructors_keep_their_arguments() {
    let attachment = Attachment::new("notes.txt", "text/plain", vec![9, 8]);
    assert_eq!(attachment.name(), "notes.txt");
    assert_eq!(attachment.mime_type(), "text/plain");
    assert_eq!(attachment.data(), &vec![9, 8]);

    let pdf = Attachment::pdf("a.pdf", vec![1, 2, 3]);
    assert_eq!(pdf.name(), "a.pdf");
    assert_eq!(pdf.mime_type(), "application/pdf");
    assert_eq!(pdf.data(), &vec![1, 2, 3]);
    assert_eq!(pdf.clone(), pdf);
    assert_ne!(pdf, attachment);
}

#[test]
fn attachment_samples() {
    let sample = Attachment::sample();
    assert_eq!(sample.name(), "sample.pdf");
    assert_eq!(sample.mime_type(), "application/pdf");
    assert_eq!(sample.data(), &vec![0xde, 0xad, 0xbe, 0xef]);

    let other = Attachment::sample_other();
    assert_eq!(other.name(), "notes.txt");
    assert_eq!(other.mime_type(), "text/plain");
    assert_eq!(other.data(), &b"Hello from mejla".to_vec());
}

#[test]
fn email_address_holds_the_text_it_parsed() {
    let parsed = address("alice@example.com");
    assert_eq!(parsed.as_str(), "alice@example.com");
    assert_eq!(parsed.to_string(), "alice@example.com");
    assert_eq!(parsed, EmailAddress::sample_alice());
    assert_eq!(parsed.clone(), parsed);
    assert_ne!(parsed, EmailAddress::sample_bob());
}

#[test]
fn email_address_rejects_what_is_no_address() {
    assert_eq!(
        EmailAddress::from_str("no at sign").unwrap_err(),
        EmailAddressError::MissingParts
    );
    assert_eq!(
        EmailAddress::from_str("@example.com").unwrap_err(),
        EmailAddressError::InvalidUser
    );
    assert_eq!(
        EmailAddress::from_str("alice@").unwrap_err(),
        EmailAddressError::InvalidDomain
    );
    assert_eq!(
        EmailAddress::from_str("alice@exa mple.com").unwrap_err(),
        EmailAddressError::InvalidDomain
    );
    assert_eq!(
        EmailAddressError::MissingParts.to_string(),
        "Missing domain or user"
    );
    assert_eq!(EmailAddressError::InvalidUser.to_string(), "Invalid email user");
    assert_eq!(
        EmailAddressError::InvalidDomain.to_string(),
        "Invalid email domain"
    );
    assert_eq!(EmailAddressError::Other.to_string(), "Invalid email address");
}

#[test]
fn sample_addresses_are_valid_addresses() {
    assert_eq!(EmailAddress::sample(), address("alice@example.com"));
    assert_eq!(EmailAddress::sample_other(), address("bob@example.com"));
    assert_eq!(EmailAddress::sample_alice(), address("alice@example.com"));
    assert_eq!(EmailAddress::sample_bob(), address("bob@example.com"));
    assert_eq!(EmailAddress::sample_carol(), address("carol@example.com"));
    assert_eq!(EmailAddress::sample_dave(), address("dave@example.com"));
    assert_eq!(EmailAddress::sample_erin(), address("erin@example.com"));
}

#[test]
fn address_set_keeps_order_and_drops_repeats() {
    let set = address_set_of(vec![
        EmailAddress::sample_bob(),
        EmailAddress::sample_alice(),
        EmailAddress::sample_bob(),
        EmailAddress::sample_carol(),
    ]);
    let texts: Vec<String> = set.iter().map(|a| a.to_string()).collect();
    assert_eq!(
        texts,
        vec!["bob@example.com", "alice@example.com", "carol@example.com"]
    );
    assert!(!is_empty_address_set(&set));
    assert!(is_empty_address_set(&IndexSet::new()));
    assert!(is_empty_address_set(&address_set_of(Vec::new())));
}

#[test]
fn attachment_set_keeps_order_and_drops_repeats() {
    let set = attachment_set_of(vec![
        Attachment::sample_other(),
        Attachment::sample(),
        Attachment::sample_other(),
    ]);
    let names: Vec<&str> = set.iter().map(|a| a.name().as_str()).collect();
    assert_eq!(names, vec!["notes.txt", "sample.pdf"]);
}

#[test]
fn email_account_samples() {
    assert_eq!(EmailAccount::sample(), EmailAccount::sample_alice());
    assert_eq!(EmailAccount::sample_other(), EmailAccount::sample_bob());
    let alice = EmailAccount::sample_alice();
    assert_eq!(alice.name(), "Alice Smith");
    assert_eq!(alice.email(), &EmailAddress::sample_alice());
    let bob = EmailAccount::sample_bob();
    assert_eq!(bob.name(), "Bob Johnson");
    assert_eq!(bob.email(), &EmailAddress::sample_bob());
    assert_ne!(alice, bob);
    assert_eq!(
        EmailAccount::new("Alice Smith".to_string(), address("alice@example.com")),
        alice
    );
    assert_eq!(alice.clone(), alice);
}

#[test]
fn smtp_server_defaults_to_gmail() {
    assert_eq!(SmtpServer::gmail().as_str(), "smtp.gmail.com");
    assert_eq!(SmtpServer::default(), SmtpServer::gmail());
    assert_eq!(SmtpServer::from_str("smtp.example.com").to_string(), "smtp.example.com");
    assert_ne!(SmtpServer::from_str("smtp.example.com"), SmtpServer::gmail());
    assert_eq!(SmtpServer::gmail().clone(), SmtpServer::gmail());
}

#[test]
fn template_part_replaces_each_placeholder() {
    let part = TemplatePart::default();
    assert_eq!(part.to_string(), "Invoice <INV_NO> from <FROM_CO>");
    let replacements = vec![
        ("<INV_NO>".to_string(), "42".to_string()),
        ("<FROM_CO>".to_string(), "Acme".to_string()),
    ];
    assert_eq!(part.materialize_with(&replacements), "Invoice 42 from Acme");
    assert_eq!(part.materialize_with(&[]), "Invoice <INV_NO> from <FROM_CO>");
}

#[test]
fn template_part_applies_replacements_in_turn() {
    let part = TemplatePart::from_str("a-a-b");
    let replacements = vec![
        ("a".to_string(), "b".to_string()),
        ("b".to_string(), "cc".to_string()),
    ];
    assert_eq!(part.materialize_with(&replacements), "cc-cc-cc");
    assert_eq!(part.clone(), part);
    assert_ne!(part, TemplatePart::default());
}

#[test]
fn template_materializes_subject_and_body() {
    let template = Template::new(
        TemplatePart::from_str("Invoice <NO>"),
        TemplatePart::from_str("Dear <WHO>, invoice <NO> is attached."),
    );
    let replacements = vec![
        ("<NO>".to_string(), "7".to_string()),
        ("<WHO>".to_string(), "Bob".to_string()),
    ];
    assert_eq!(
        template.materialize_with(&replacements),
        (
            "Invoice 7".to_string(),
            "Dear Bob, invoice 7 is attached.".to_string()
        )
    );
    assert_eq!(template.subject_format().to_string(), "Invoice <NO>");
    assert_eq!(
        template.body_format().to_string(),
        "Dear <WHO>, invoice <NO> is attached."
    );
    assert_ne!(template, Template::default());
    assert_eq!(
        Template::default(),
        Template::new(TemplatePart::default(), TemplatePart::default())
    );
}

#[test]
fn email_samples() {
    let email = Email::sample();
    assert_eq!(
        email.public_recipients(),
        &address_set_of(vec![EmailAddress::sample_bob()])
    );
    assert_eq!(
        email.cc_recipients(),
        &address_set_of(vec![EmailAddress::sample_carol()])
    );
    assert_eq!(
        email.bcc_recipients(),
        &address_set_of(vec![EmailAddress::sample_erin()])
    );
    assert_eq!(email.subject(), "Sample Email Subject");
    assert_eq!(email.body(), "This is a sample email body.");
    assert_eq!(email.reply_to(), &None);
    assert_eq!(
        email.attachments(),
        &attachment_set_of(vec![Attachment::sample()])
    );

    let other = Email::sample_other();
    assert_eq!(
        other.public_recipients(),
        &address_set_of(vec![EmailAddress::sample_alice()])
    );
    assert_eq!(
        other.cc_recipients(),
        &address_set_of(vec![EmailAddress::sample_dave()])
    );
    assert!(other.bcc_recipients().is_empty());
    assert_eq!(other.subject(), "Another Sample Email Subject");
    assert_eq!(other.body(), "This is another sample email body.");
    assert_eq!(
        other.attachments(),
        &attachment_set_of(vec![Attachment::sample_other()])
    );
    assert!(email == email.clone());
    assert!(email != other);
}

#[test]
fn email_without_body_has_an_empty_body() {
    let email = Email::new(
        address_set_of(vec![EmailAddress::sample_bob()]),
        IndexSet::new(),
        IndexSet::new(),
        "Subject".to_string(),
        None,
        Some(EmailAccount::sample_alice()),
        IndexSet::new(),
    );
    assert_eq!(email.body(), "");
    assert_eq!(email.reply_to(), &Some(EmailAccount::sample_alice()));
}

#[test]
fn email_credentials_samples_compare_by_exposed_secret() {
    let sample = EmailCredentials::sample();
    assert_eq!(sample.smtp_server(), &SmtpServer::gmail());
    assert_eq!(sample.account(), &EmailAccount::sample_alice());
    assert_eq!(sample.password().expose_secret(), "open sesame");

    let other = EmailCredentials::sample_other();
    assert_eq!(other.account(), &EmailAccount::sample_bob());
    assert_eq!(other.password().expose_secret(), "super_secret");

    assert!(sample == sample.clone());
    assert!(sample != other);
    let changed = EmailCredentials::new(
        SmtpServer::gmail(),
        EmailAccount::sample_alice(),
        SecretString::from("open sesame!"),
    );
    assert!(sample != changed);
}
