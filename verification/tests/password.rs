use mejla::tui::{
    ask_for_email_encryption_password_with_confirmation_in_env, ask_for_password,
    ask_for_password_once_with_length, confirm_password, env_encryption_password,
    format_password_prompt, validate, Error, DEFAULT_EMAIL_ENCRYPTION_PASSWORD_ENV_VAR,
    PASSWORD_MIN_LENGTH,
};
use mejla::SecretString;

fn typed(text: &'static str) -> impl FnOnce(String) -> Result<SecretString, Error> {
    move |_question: String| Ok(SecretString::from(text))
}

fn never_asked() -> impl FnOnce(String) -> Result<SecretString, Error> {
    |_question: String| panic!("no question is expected")
}

#[test]
fn password_policy_constants() {
    assert_eq!(PASSWORD_MIN_LENGTH, 4);
    assert_eq!(
        DEFAULT_EMAIL_ENCRYPTION_PASSWORD_ENV_VAR,
        "EMAIL_ENCRYPTION_PASSWORD"
    );
}

#[test]
fn validate_accepts_the_least_length() {
    let accepted = validate(SecretString::from("abcd"), 4).unwrap();
    assert_eq!(accepted.expose_secret(), "abcd");
    assert!(validate(SecretString::from(""), 0).is_ok());
}

#[test]
fn validate_rejects_a_short_password_with_both_lengths() {
    let rejected = validate(SecretString::from("abc"), 4);
    assert!(matches!(
        rejected,
        Err(Error::EmailPasswordTooShort {
            min_length: 4,
            actual_length: 3
        })
    ));
    let empty = validate(SecretString::from(""), 12);
    assert!(matches!(
        empty,
        Err(Error::EmailPasswordTooShort {
            min_length: 12,
            actual_length: 0
        })
    ));
}

#[test]
fn validate_counts_bytes() {
    // Two characters of two bytes each.
    assert!(validate(SecretString::from("éé"), 4).is_ok());
    assert!(matches!(
        validate(SecretString::from("éé"), 5),
        Err(Error::EmailPasswordTooShort {
            min_length: 5,
            actual_length: 4
        })
    ));
}

#[test]
fn password_prompt_shows_help_and_least_length() {
    assert_eq!(
        format_password_prompt(
            "Encryption Password",
            "Used to encrypt the SMTP App Password",
            4,
            true
        ),
        "Encryption Password (Used to encrypt the SMTP App Password, min: #4 letters.)"
    );
    assert_eq!(
        format_password_prompt("SMTP App Password", "Used to authenticate sender account", 4, false),
        "SMTP App Password (Used to authenticate sender account)"
    );
    assert_eq!(
        format_password_prompt("P", "h", 120, true),
        "P (h, min: #120 letters.)"
    );
}

#[test]
fn asking_once_hands_the_question_to_the_reader() {
    let outcome = ask_for_password_once_with_length(
        "SMTP App Password",
        "Used to authenticate sender account",
        4,
        true,
        |question: String| {
            assert_eq!(
                question,
                "SMTP App Password (Used to authenticate sender account, min: #4 letters.)"
            );
            Ok(SecretString::from("swordfish123"))
        },
    );
    assert_eq!(outcome.unwrap().expose_secret(), "swordfish123");
}

#[test]
fn asking_once_rejects_a_short_answer_and_hands_errors_on() {
    let short = ask_for_password_once_with_length("P", "h", 8, false, typed("1234567"));
    assert!(matches!(
        short,
        Err(Error::EmailPasswordTooShort {
            min_length: 8,
            actual_length: 7
        })
    ));
    let failed = ask_for_password_once_with_length("P", "h", 8, false, |_question: String| {
        Err(Error::invalid_password_for_email_purpose("P")("closed input"))
    });
    assert_eq!(
        failed.err().unwrap().to_string(),
        "Invalid password for email P, because: closed input"
    );
}

#[test]
fn asking_without_confirmation_reads_once() {
    let outcome = ask_for_password(false, "P", "h", typed("swordfish123"), never_asked());
    assert_eq!(outcome.unwrap().expose_secret(), "swordfish123");
}

#[test]
fn asking_with_confirmation_accepts_two_equal_entries() {
    let outcome = ask_for_password(
        true,
        "P",
        "h",
        typed("swordfish123"),
        |question: String| {
            assert_eq!(question, "Confirm password (h, min: #4 letters.)");
            Ok(SecretString::from("swordfish123"))
        },
    );
    assert_eq!(outcome.unwrap().expose_secret(), "swordfish123");
}

#[test]
fn asking_with_confirmation_rejects_two_different_entries() {
    let outcome = ask_for_password(true, "P", "h", typed("swordfish123"), typed("swordfish124"));
    assert!(matches!(outcome, Err(Error::PasswordDoesNotMatch)));
}

#[test]
fn a_short_first_entry_ends_the_asking() {
    let outcome = ask_for_password(true, "P", "h", typed("abc"), never_asked());
    assert!(matches!(
        outcome,
        Err(Error::EmailPasswordTooShort {
            min_length: 4,
            actual_length: 3
        })
    ));
}

#[test]
fn confirm_password_compares_the_exposed_secrets() {
    let same = confirm_password(SecretString::from("abcd"), SecretString::from("abcd"));
    assert_eq!(same.unwrap().expose_secret(), "abcd");
    let different = confirm_password(SecretString::from("abcd"), SecretString::from("abce"));
    assert!(matches!(different, Err(Error::PasswordDoesNotMatch)));
}

#[test]
fn env_password_is_used_when_long_enough() {
    assert_eq!(
        env_encryption_password(Some("abcd".to_string()))
            .unwrap()
            .expose_secret(),
        "abcd"
    );
    assert!(env_encryption_password(Some("abc".to_string())).is_none());
    assert!(env_encryption_password(None).is_none());
}

#[test]
fn env_password_spares_the_questions() {
    let outcome = ask_for_email_encryption_password_with_confirmation_in_env(
        true,
        Some("from the environment".to_string()),
        never_asked(),
        never_asked(),
    );
    assert_eq!(outcome.unwrap().expose_secret(), "from the environment");
}

#[test]
fn a_short_or_missing_env_password_leads_to_the_questions() {
    let outcome = ask_for_email_encryption_password_with_confirmation_in_env(
        false,
        Some("abc".to_string()),
        |question: String| {
            assert_eq!(
                question,
                "Encryption Password (Used to encrypt the SMTP App Password)"
            );
            Ok(SecretString::from("typed password"))
        },
        never_asked(),
    );
    assert_eq!(outcome.unwrap().expose_secret(), "typed password");

    let confirmed = ask_for_email_encryption_password_with_confirmation_in_env(
        true,
        None,
        typed("typed password"),
        typed("typed password"),
    );
    assert_eq!(confirmed.unwrap().expose_secret(), "typed password");
}
