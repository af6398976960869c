use crate::helpers::command_line::CLIPrint;
use crate::helpers::text::{debug_optional_text, debug_quote_optional, optional_text};
use crate::models::agents_common::protocol::{Notice, NoticeView};
use vstd::prelude::*;
use vstd::string::*;

verus! {

/// A status line in which `role` says `message`.
pub open spec fn line(level: CLIPrint, role: Seq<char>, message: Seq<char>) -> NoticeView {
    NoticeView { level, role, message }
}

/// What an agent says of a failure that was written into the case: the
/// response field as `Debug` shows it, optional as it is, inside `Some(`
/// and `)`.
pub open spec fn error_text(response: Option<Seq<char>>) -> Seq<char> {
    "There was an error: Some("@ + debug_optional_text(response) + ")"@
}

/// The line in which `role` reports a failure.
pub open spec fn error_line(role: Seq<char>, response: Option<Seq<char>>) -> NoticeView {
    line(CLIPrint::Error, role, error_text(response))
}

/// `lines` with `extra` added where there is one.
pub open spec fn with_optional(lines: Seq<NoticeView>, extra: Option<NoticeView>) -> Seq<
    NoticeView,
> {
    match extra {
        Some(notice) => lines.push(notice),
        None => lines,
    }
}

/// Makes a status line.
pub fn say(level: CLIPrint, role: &String, message: &str) -> (notice: Notice)
    ensures
        notice@ == line(level, role@, message@),
{
    Notice { level, role: role.clone(), message: String::from_str(message) }
}

/// Makes a status line of two parts.
pub fn say_about(level: CLIPrint, role: &String, lead: &str, subject: &str) -> (notice: Notice)
    ensures
        notice@ == line(level, role@, lead@ + subject@),
{
    let mut message = String::from_str(lead);
    message.append(subject);
    Notice { level, role: role.clone(), message }
}

/// Makes the line in which `role` reports a failure.
pub fn say_error(role: &String, response: &Option<String>) -> (notice: Notice)
    ensures
        notice@ == error_line(role@, optional_text(*response)),
{
    let mut message = String::from_str("There was an error: Some(");
    message.append(debug_quote_optional(response).as_str());
    message.append(")");
    Notice { level: CLIPrint::Error, role: role.clone(), message }
}

} // verus!
