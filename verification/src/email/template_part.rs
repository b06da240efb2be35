use vstd::prelude::*;
use vstd::std_specs::cmp::PartialEqSpecImpl;

verus! {

/// What `str::replace` returns for a text, a pattern and a replacement: the
/// text with every match of the pattern replaced.
pub uninterp spec fn str_replaced(text: Seq<char>, pattern: Seq<char>, replacement: Seq<char>) -> Seq<
    char,
>;

/// Calls `str::replace`, which copies the text and puts the replacement in
/// place of every match of the pattern.
#[verifier::external_body]
fn replace_all(text: &str, pattern: &str, replacement: &str) -> (replaced: String)
    ensures
        replaced@ == str_replaced(text@, pattern@, replacement@),
{
    text.replace(pattern, replacement)
}

/// Free-form email template text that may contain placeholder tokens.
#[derive(Debug)]
pub struct TemplatePart(String);

impl View for TemplatePart {
    type V = Seq<char>;

    closed spec fn view(&self) -> Seq<char> {
        self.0@
    }
}

impl TemplatePart {
    /// The text after the first `count` replacements were applied in turn,
    /// each to the result of the one before.
    pub open spec fn materialized(
        text: Seq<char>,
        replacements: Seq<(String, String)>,
        count: int,
    ) -> Seq<char>
        decreases count,
    {
        if count <= 0 {
            text
        } else {
            str_replaced(
                Self::materialized(text, replacements, count - 1),
                replacements[count - 1].0@,
                replacements[count - 1].1@,
            )
        }
    }

    /// The template part with the given text.
    pub fn from_str(text: &str) -> (part: Self)
        ensures
            part@ == text@,
    {
        TemplatePart(text.to_owned())
    }

    /// The text of the template, as it is displayed.
    pub fn to_string(&self) -> (text: String)
        ensures
            text@ == self@,
    {
        self.0.clone()
    }

    /// Replace each known placeholder with its provided value.
    pub fn materialize_with(&self, replacements: &[(String, String)]) -> (text: String)
        ensures
            text@ == Self::materialized(self@, replacements@, replacements@.len() as int),
    {
        let mut raw = self.0.clone();
        let mut i: usize = 0;
        while i < replacements.len()
            invariant
                i <= replacements.len(),
                raw@ == Self::materialized(self@, replacements@, i as int),
            decreases replacements.len() - i,
        {
            raw = replace_all(raw.as_str(), replacements[i].0.as_str(), replacements[i].1.as_str());
            i += 1;
        }
        raw
    }
}

impl Default for TemplatePart {
    fn default() -> (part: Self)
        ensures
            part@ == "Invoice <INV_NO> from <FROM_CO>"@,
    {
        TemplatePart("Invoice <INV_NO> from <FROM_CO>".to_owned())
    }
}

impl Clone for TemplatePart {
    fn clone(&self) -> (copy: Self)
        ensures
            copy@ == self@,
    {
        TemplatePart(self.0.clone())
    }
}

impl PartialEq for TemplatePart {
    fn eq(&self, other: &Self) -> (equal: bool) {
        self.0 == other.0
    }
}

impl Eq for TemplatePart {

}

impl PartialEqSpecImpl for TemplatePart {
    open spec fn obeys_eq_spec() -> bool {
        true
    }

    open spec fn eq_spec(&self, other: &Self) -> bool {
        self@ == other@
    }
}

} // verus!
