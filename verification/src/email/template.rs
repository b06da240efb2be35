use super::template_part::TemplatePart;
use vstd::prelude::*;
use vstd::std_specs::cmp::PartialEqSpecImpl;

verus! {

/// Template is a struct that contains the subject and body format for an email.
#[derive(Debug)]
pub struct Template {
    subject_format: TemplatePart,
    body_format: TemplatePart,
}

impl View for Template {
    type V = (Seq<char>, Seq<char>);

    /// The subject format and the body format.
    closed spec fn view(&self) -> (Seq<char>, Seq<char>) {
        (self.subject_format@, self.body_format@)
    }
}

impl Template {
    /// The template with the given formats.
    pub fn new(subject_format: TemplatePart, body_format: TemplatePart) -> (template: Self)
        ensures
            template@ == (subject_format@, body_format@),
    {
        Template { subject_format, body_format }
    }

    /// The format of the subject.
    pub fn subject_format(&self) -> (part: &TemplatePart)
        ensures
            part@ == self@.0,
    {
        &self.subject_format
    }

    /// The format of the body.
    pub fn body_format(&self) -> (part: &TemplatePart)
        ensures
            part@ == self@.1,
    {
        &self.body_format
    }

    /// The subject and the body with each placeholder replaced by its value.
    pub fn materialize_with(&self, replacements: &[(String, String)]) -> (texts: (String, String))
        ensures
            texts.0@ == TemplatePart::materialized(
                self@.0,
                replacements@,
                replacements@.len() as int,
            ),
            texts.1@ == TemplatePart::materialized(
                self@.1,
                replacements@,
                replacements@.len() as int,
            ),
    {
        let subject = self.subject_format.materialize_with(replacements);
        let body = self.body_format.materialize_with(replacements);
        (subject, body)
    }
}

impl Default for Template {
    fn default() -> (template: Self)
        ensures
            template@ == (
                "Invoice <INV_NO> from <FROM_CO>"@,
                "Invoice <INV_NO> from <FROM_CO>"@,
            ),
    {
        Template { subject_format: TemplatePart::default(), body_format: TemplatePart::default() }
    }
}

impl Clone for Template {
    fn clone(&self) -> (copy: Self)
        ensures
            copy@ == self@,
    {
        Template {
            subject_format: self.subject_format.clone(),
            body_format: self.body_format.clone(),
        }
    }
}

impl PartialEq for Template {
    fn eq(&self, other: &Self) -> (equal: bool) {
        self.subject_format == other.subject_format && self.body_format == other.body_format
    }
}

impl Eq for Template {

}

impl PartialEqSpecImpl for Template {
    open spec fn obeys_eq_spec() -> bool {
        true
    }

    open spec fn eq_spec(&self, other: &Self) -> bool {
        self@ == other@
    }
}

} // verus!
