use super::error::Error;
use crate::email::template::Template;
use crate::email::template_part::TemplatePart;
use vstd::prelude::*;

verus! {

/// Whether the callback, asked for the named part of the template with the
/// current part as the default, may have given the answer.
pub open spec fn part_was_asked<F: FnOnce(&str, &TemplatePart, &str) -> Result<TemplatePart, Error>>(
    ask: F,
    part: Seq<char>,
    current: Seq<char>,
    tutorial: Seq<char>,
    answer: Result<TemplatePart, Error>,
) -> bool {
    exists|name: &str, default: &TemplatePart, help: &str|
        name@ == part && default@ == current && help@ == tutorial && #[trigger] ask.ensures(
            (name, default, help),
            answer,
        )
}

/// Asks for the subject format and then for the body format of a template,
/// each with the current format as the default. The first error ends the
/// questions.
pub fn ask_for_template<
    F1: FnOnce(&str, &TemplatePart, &str) -> Result<TemplatePart, Error>,
    F2: FnOnce(&str, &TemplatePart, &str) -> Result<TemplatePart, Error>,
>(default: &Template, tutorial: &str, ask_for_subject: F1, ask_for_body: F2) -> (outcome: Result<
    Template,
    Error,
>)
    requires
        forall|name: &str, current: &TemplatePart, help: &str| #[trigger]
            ask_for_subject.requires((name, current, help)),
        forall|name: &str, current: &TemplatePart, help: &str| #[trigger]
            ask_for_body.requires((name, current, help)),
    ensures
        match outcome {
            Ok(template) => exists|subject: TemplatePart, body: TemplatePart|
                template@ == (subject@, body@) && #[trigger] part_was_asked(
                    ask_for_subject,
                    "subject"@,
                    default@.0,
                    tutorial@,
                    Ok(subject),
                ) && #[trigger] part_was_asked(
                    ask_for_body,
                    "body"@,
                    default@.1,
                    tutorial@,
                    Ok(body),
                ),
            Err(error) => {
                ||| part_was_asked(ask_for_subject, "subject"@, default@.0, tutorial@, Err(error))
                ||| part_was_asked(ask_for_body, "body"@, default@.1, tutorial@, Err(error))
            },
        },
{
    let subject = match ask_for_subject("subject", default.subject_format(), tutorial) {
        Ok(part) => part,
        Err(error) => {
            return Err(error);
        },
    };
    let body = match ask_for_body("body", default.body_format(), tutorial) {
        Ok(part) => part,
        Err(error) => {
            return Err(error);
        },
    };
    let ghost asked_subject = subject;
    let ghost asked_body = body;
    let template = Template::new(subject, body);
    assert(part_was_asked(ask_for_subject, "subject"@, default@.0, tutorial@, Ok(asked_subject)));
    assert(part_was_asked(ask_for_body, "body"@, default@.1, tutorial@, Ok(asked_body)));
    Ok(template)
}

} // verus!
