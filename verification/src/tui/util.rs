use vstd::prelude::*;
use vstd::string::StringExecFns;

verus! {

/// The help text of a prompt that can be skipped.
pub open spec fn help_skippable(help: Option<Seq<char>>) -> Seq<char> {
    match help {
        None => "Skip with ESC"@,
        Some(help) => "Skip with ESC: "@ + help,
    }
}

/// The view of a text that may be absent.
pub open spec fn optional_text(text: Option<String>) -> Option<Seq<char>> {
    match text {
        Some(text) => Some(text@),
        None => None,
    }
}

/// Says how to skip a prompt, before the help text of the prompt if it has
/// one.
pub fn format_help_skippable(help: Option<String>) -> (text: String)
    ensures
        text@ == help_skippable(optional_text(help)),
{
    match help {
        None => String::from_str("Skip with ESC"),
        Some(help) => {
            let mut text = String::from_str("Skip with ESC: ");
            text.append(help.as_str());
            text
        },
    }
}

} // verus!
