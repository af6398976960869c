use crate::helpers::text::{lowercase_text, to_lowercase, trim, trimmed_text};
use vstd::prelude::*;
use vstd::string::*;

verus! {

/// How loud a status line is.
#[derive(Debug, Clone, Copy, PartialEq, Eq, Structural)]
pub enum CLIPrint {
    Warning,
    Error,
    Info,
    Default,
}

impl CLIPrint {
    /// The word that a line of this kind starts with.
    pub open spec fn prefix_text(self) -> Seq<char> {
        match self {
            CLIPrint::Error => "ERROR: "@,
            CLIPrint::Warning => "WARNING: "@,
            CLIPrint::Info => "INFO: "@,
            CLIPrint::Default => ""@,
        }
    }

    /// A status line of this kind: who speaks, between bars, then the kind,
    /// then what is said.
    pub open spec fn line_text(self, role: Seq<char>, message: Seq<char>) -> Seq<char> {
        "|"@ + role + "|"@ + self.prefix_text() + message
    }

    /// The word that a line of this kind starts with.
    pub fn prefix(&self) -> (word: &'static str)
        ensures
            word@ == self.prefix_text(),
    {
        match self {
            CLIPrint::Error => "ERROR: ",
            CLIPrint::Warning => "WARNING: ",
            CLIPrint::Info => "INFO: ",
            CLIPrint::Default => "",
        }
    }

    /// The status line in which `role` says `message`, without its line end.
    pub fn out(&self, role: &str, message: &str) -> (line: String)
        ensures
            line@ == self.line_text(role@, message@),
    {
        let mut line = String::from_str("|");
        line.append(role);
        line.append("|");
        line.append(self.prefix());
        line.append(message);
        line
    }
}

/// What the person at the terminal answered when asked whether the
/// generated code may run.
#[derive(Debug, Clone, Copy, PartialEq, Eq, Structural)]
pub enum Confirmation {
    Approved,
    Declined,
    Invalid,
}

impl Confirmation {
    /// Only an approval lets generated code run.
    pub open spec fn permits(self) -> bool {
        self == Confirmation::Approved
    }

    /// Whether generated code may run after this answer.
    pub fn is_approved(&self) -> (yes: bool)
        ensures
            yes == self.permits(),
    {
        match self {
            Confirmation::Approved => true,
            _ => false,
        }
    }
}

/// What an answer means once it is trimmed and in lower case.
pub open spec fn confirmation_of(answer: Seq<char>) -> Confirmation {
    if answer == "1"@ || answer == "ok"@ || answer == "y"@ || answer == "yes"@ {
        Confirmation::Approved
    } else if answer == "2"@ || answer == "n"@ || answer == "no"@ {
        Confirmation::Declined
    } else {
        Confirmation::Invalid
    }
}

fn same_text(a: &str, b: &str) -> (same: bool)
    ensures
        same == (a@ == b@),
{
    String::from_str(a) == String::from_str(b)
}

/// Reads an answer that is already trimmed and in lower case.
pub fn read_confirmation(answer: &str) -> (meaning: Confirmation)
    ensures
        meaning == confirmation_of(answer@),
{
    if same_text(answer, "1") || same_text(answer, "ok") || same_text(answer, "y") || same_text(
        answer,
        "yes",
    ) {
        Confirmation::Approved
    } else if same_text(answer, "2") || same_text(answer, "n") || same_text(answer, "no") {
        Confirmation::Declined
    } else {
        Confirmation::Invalid
    }
}

/// Decides from the line that was typed whether generated code may run.
/// Anything but a plain yes keeps it from running.
pub fn confirm_safe_code(response: &str) -> (meaning: Confirmation)
    ensures
        meaning == confirmation_of(lowercase_text(trimmed_text(response@))),
{
    let answer = to_lowercase(trim(response));
    read_confirmation(answer.as_str())
}

/// The answer to a question as it is used: the line that was typed, without
/// the white space at its ends.
pub fn get_user_response(line: &str) -> (answer: String)
    ensures
        answer@ == trimmed_text(line@),
{
    String::from_str(trim(line))
}

} // verus!
