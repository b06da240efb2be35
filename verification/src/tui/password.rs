use super::error::Error;
use crate::encryption::error::{decimal, decimal_string};
use crate::encryption::secret::SecretString;
use vstd::prelude::*;
use vstd::string::StringExecFns;

verus! {

/// The name of the environment variable that may hold the encryption
/// password.
pub const DEFAULT_EMAIL_ENCRYPTION_PASSWORD_ENV_VAR: &'static str = "EMAIL_ENCRYPTION_PASSWORD";

/// The least number of bytes of a password.
pub const PASSWORD_MIN_LENGTH: usize = 4;

/// What `validate` returns for a password of the given length in bytes.
pub open spec fn validated(length: nat, min_length: usize) -> Result<(), Error> {
    if length < min_length {
        Err(Error::EmailPasswordTooShort { min_length, actual_length: length as usize })
    } else {
        Ok(())
    }
}

/// Accepts a password of at least `min_length` bytes and rejects a shorter
/// one, with both lengths in the error.
pub fn validate(input: SecretString, min_length: usize) -> (checked: Result<SecretString, Error>)
    ensures
        match checked {
            Ok(secret) => secret@ == input@ && validated(input.bytes().len(), min_length) is Ok,
            Err(error) => validated(input.bytes().len(), min_length) == Err::<(), Error>(error),
        },
{
    let length = input.expose_secret().as_bytes().len();
    if length < min_length {
        Err(Error::EmailPasswordTooShort { min_length, actual_length: length })
    } else {
        Ok(input)
    }
}

/// The text of the question for a password: the prompt, and in brackets the
/// help and, if asked for, the least length.
pub open spec fn password_prompt(
    prompt: Seq<char>,
    help: Seq<char>,
    min_length: usize,
    show_min_length: bool,
) -> Seq<char> {
    prompt + " ("@ + help + (if show_min_length {
        ", min: #"@ + decimal(min_length as nat) + " letters."@
    } else {
        Seq::<char>::empty()
    }) + ")"@
}

/// Writes the question for a password.
pub fn format_password_prompt(prompt: &str, help: &str, min_length: usize, show_min_length: bool) -> (text:
    String)
    ensures
        text@ == password_prompt(prompt@, help@, min_length, show_min_length),
{
    let mut text = String::from_str(prompt);
    text.append(" (");
    text.append(help);
    if show_min_length {
        text.append(", min: #");
        let digits = decimal_string(min_length);
        text.append(digits.as_str());
        text.append(" letters.");
        assert(text@ =~= prompt@ + " ("@ + help@ + (", min: #"@ + decimal(min_length as nat)
            + " letters."@));
    } else {
        assert(text@ =~= prompt@ + " ("@ + help@ + Seq::<char>::empty());
    }
    text.append(")");
    text
}

/// A result that holds a secret, with the secret as its text.
pub open spec fn secret_result_view(outcome: Result<SecretString, Error>) -> Result<Seq<char>, Error> {
    match outcome {
        Ok(secret) => Ok(secret@),
        Err(error) => Err(error),
    }
}

/// What one question for a password yields for what was read: the error of
/// the reading, else the verdict on the length.
pub open spec fn checked_answer(answer: Result<SecretString, Error>, min_length: usize) -> Result<
    Seq<char>,
    Error,
> {
    match answer {
        Err(error) => Err(error),
        Ok(input) => match validated(input.bytes().len(), min_length) {
            Ok(()) => Ok(input@),
            Err(error) => Err(error),
        },
    }
}

/// Whether `read`, asked the question for a password, may have given the
/// answer.
pub open spec fn was_read<R: FnOnce(String) -> Result<SecretString, Error>>(
    read: R,
    prompt: Seq<char>,
    help: Seq<char>,
    min_length: usize,
    show_min_length: bool,
    answer: Result<SecretString, Error>,
) -> bool {
    exists|question: String|
        question@ == password_prompt(prompt, help, min_length, show_min_length)
            && #[trigger] read.ensures((question,), answer)
}

/// Asks once for a password, through `read`, and checks its length.
pub fn ask_for_password_once_with_length<R: FnOnce(String) -> Result<SecretString, Error>>(
    prompt: &str,
    help: &str,
    min_length: usize,
    show_min_length: bool,
    read: R,
) -> (outcome: Result<SecretString, Error>)
    requires
        forall|question: String| #[trigger] read.requires((question,)),
    ensures
        exists|answer: Result<SecretString, Error>| #[trigger]
            was_read(read, prompt@, help@, min_length, show_min_length, answer)
                && secret_result_view(outcome) == checked_answer(answer, min_length),
{
    let question = format_password_prompt(prompt, help, min_length, show_min_length);
    let ghost asked = question;
    let answer = read(question);
    let ghost given = answer;
    let outcome = match answer {
        Err(error) => Err(error),
        Ok(input) => validate(input, min_length),
    };
    assert(read.ensures((asked,), given));
    assert(was_read(read, prompt@, help@, min_length, show_min_length, given));
    outcome
}

/// What the comparison of a password with its confirmation yields.
pub open spec fn confirmed(first: Seq<char>, second: Seq<char>) -> Result<Seq<char>, Error> {
    if first == second {
        Ok(first)
    } else {
        Err(Error::PasswordDoesNotMatch)
    }
}

/// Accepts a password that was entered twice alike.
pub fn confirm_password(first: SecretString, second: SecretString) -> (outcome: Result<
    SecretString,
    Error,
>)
    ensures
        match outcome {
            Ok(secret) => confirmed(first@, second@) == Ok::<Seq<char>, Error>(secret@),
            Err(error) => confirmed(first@, second@) == Err::<Seq<char>, Error>(error),
        },
{
    if first.same_secret(&second) {
        Ok(first)
    } else {
        Err(Error::PasswordDoesNotMatch)
    }
}

/// The encryption password that the environment provides, if it provides
/// one that is long enough.
pub open spec fn usable_env_password(env_password: Option<String>) -> Option<Seq<char>> {
    match env_password {
        Some(text) if vstd::utf8::encode_utf8(text@).len() >= PASSWORD_MIN_LENGTH => Some(text@),
        _ => None,
    }
}

/// Takes the encryption password from the environment where it is there and
/// meets the least length; a shorter one is passed over.
pub fn env_encryption_password(env_password: Option<String>) -> (secret: Option<SecretString>)
    ensures
        match secret {
            Some(secret) => usable_env_password(env_password) == Some(secret@),
            None => usable_env_password(env_password) is None,
        },
{
    match env_password {
        Some(text) => {
            if text.as_str().as_bytes().len() >= PASSWORD_MIN_LENGTH {
                Some(SecretString::new(text))
            } else {
                None
            }
        },
        None => None,
    }
}

/// What asking for a password yields for the checked answers to the question
/// and to its confirmation: the first error, the first password where no
/// confirmation is asked for, and else the password that was entered twice
/// alike.
pub open spec fn asked_password(
    with_confirmation: bool,
    first: Result<Seq<char>, Error>,
    second: Result<Seq<char>, Error>,
) -> Result<Seq<char>, Error> {
    match first {
        Err(error) => Err(error),
        Ok(first) => if !with_confirmation {
            Ok(first)
        } else {
            match second {
                Err(error) => Err(error),
                Ok(second) => confirmed(first, second),
            }
        },
    }
}

/// Whether asking for a password through the two readers may have had the
/// outcome. The second reader is asked only after a first password that
/// passed, and only where a confirmation is wanted.
pub open spec fn password_was_asked<
    R1: FnOnce(String) -> Result<SecretString, Error>,
    R2: FnOnce(String) -> Result<SecretString, Error>,
>(
    with_confirmation: bool,
    prompt: Seq<char>,
    help: Seq<char>,
    read_first: R1,
    read_second: R2,
    outcome: Result<SecretString, Error>,
) -> bool {
    exists|first: Result<SecretString, Error>| #[trigger]
        was_read(read_first, prompt, help, PASSWORD_MIN_LENGTH, with_confirmation, first) && {
            let checked = checked_answer(first, PASSWORD_MIN_LENGTH);
            if with_confirmation && checked is Ok {
                exists|second: Result<SecretString, Error>| #[trigger]
                    was_read(
                        read_second,
                        "Confirm password"@,
                        help,
                        PASSWORD_MIN_LENGTH,
                        with_confirmation,
                        second,
                    ) && secret_result_view(outcome) == asked_password(
                        with_confirmation,
                        checked,
                        checked_answer(second, PASSWORD_MIN_LENGTH),
                    )
            } else {
                secret_result_view(outcome) == asked_password(with_confirmation, checked, checked)
            }
        }
}

/// Asks for a password and, where a confirmation is wanted, asks for it a
/// second time and accepts it only if both entries are alike.
pub fn ask_for_password<
    R1: FnOnce(String) -> Result<SecretString, Error>,
    R2: FnOnce(String) -> Result<SecretString, Error>,
>(with_confirmation: bool, prompt: &str, help: &str, read_first: R1, read_second: R2) -> (outcome:
    Result<SecretString, Error>)
    requires
        forall|question: String| #[trigger] read_first.requires((question,)),
        forall|question: String| #[trigger] read_second.requires((question,)),
    ensures
        password_was_asked(with_confirmation, prompt@, help@, read_first, read_second, outcome),
{
    let first = ask_for_password_once_with_length(
        prompt,
        help,
        PASSWORD_MIN_LENGTH,
        with_confirmation,
        read_first,
    );
    let first = match first {
        Err(error) => {
            return Err(error);
        },
        Ok(first) => first,
    };
    if !with_confirmation {
        return Ok(first);
    }
    let second = ask_for_password_once_with_length(
        "Confirm password",
        help,
        PASSWORD_MIN_LENGTH,
        with_confirmation,
        read_second,
    );
    match second {
        Err(error) => Err(error),
        Ok(second) => confirm_password(first, second),
    }
}

/// Takes the encryption password from the environment where it provides a
/// usable one, and asks for it otherwise.
pub fn ask_for_email_encryption_password_with_confirmation_in_env<
    R1: FnOnce(String) -> Result<SecretString, Error>,
    R2: FnOnce(String) -> Result<SecretString, Error>,
>(with_confirmation: bool, env_password: Option<String>, read_first: R1, read_second: R2) -> (outcome:
    Result<SecretString, Error>)
    requires
        forall|question: String| #[trigger] read_first.requires((question,)),
        forall|question: String| #[trigger] read_second.requires((question,)),
    ensures
        match usable_env_password(env_password) {
            Some(text) => secret_result_view(outcome) == Ok::<Seq<char>, Error>(text),
            None => password_was_asked(
                with_confirmation,
                "Encryption Password"@,
                "Used to encrypt the SMTP App Password"@,
                read_first,
                read_second,
                outcome,
            ),
        },
{
    match env_encryption_password(env_password) {
        Some(secret) => Ok(secret),
        None => ask_for_password(
            with_confirmation,
            "Encryption Password",
            "Used to encrypt the SMTP App Password",
            read_first,
            read_second,
        ),
    }
}

} // verus!
