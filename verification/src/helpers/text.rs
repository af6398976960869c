use vstd::prelude::*;
use vstd::string::*;

verus! {

/// The text that Rust's `Debug` formatting gives for a string: the string in
/// double quotes, with the characters that need it escaped.
pub uninterp spec fn debug_text(s: Seq<char>) -> Seq<char>;

/// Formats `s` with `{:?}`, the `Debug` impl of `str` in the standard
/// library. The contract only names the outcome: it is a function of the
/// characters of `s` and of nothing else.
#[verifier::external_body]
pub(crate) fn debug_quote(s: &str) -> (quoted: String)
    ensures
        quoted@ == debug_text(s@),
{
    format!("{:?}", s)
}

/// The text that `Debug` formatting gives for an optional string: `None`, or
/// the quoted string inside `Some(` and `)`.
pub open spec fn debug_optional_text(value: Option<Seq<char>>) -> Seq<char> {
    match value {
        Some(text) => "Some("@ + debug_text(text) + ")"@,
        None => "None"@,
    }
}

/// `items` joined by `sep`: nothing for no item, otherwise the items in order
/// with one `sep` between neighbours.
pub open spec fn joined(items: Seq<Seq<char>>, sep: Seq<char>) -> Seq<char>
    decreases items.len(),
{
    if items.len() == 0 {
        Seq::empty()
    } else if items.len() == 1 {
        items[0]
    } else {
        joined(items.drop_last(), sep) + sep + items.last()
    }
}

/// The views of a list of strings.
pub open spec fn texts(items: Seq<String>) -> Seq<Seq<char>> {
    Seq::new(items.len(), |i: int| items[i]@)
}

/// Joins `items` with `sep` between neighbours.
pub fn join(items: &Vec<String>, sep: &str) -> (out: String)
    ensures
        out@ == joined(texts(items@), sep@),
{
    let mut out = String::new();
    let mut i: usize = 0;
    while i < items.len()
        invariant
            i <= items.len(),
            out@ == joined(texts(items@).take(i as int), sep@),
        decreases items.len() - i,
    {
        proof {
            let all = texts(items@);
            assert(all.take(i + 1).drop_last() == all.take(i as int));
            assert(all.take(i + 1).last() == items@[i as int]@);
        }
        if i > 0 {
            out.append(sep);
        }
        out.append(items[i].as_str());
        i += 1;
    }
    proof {
        assert(texts(items@).take(items.len() as int) == texts(items@));
    }
    out
}

/// What `str::trim` leaves of a text: the text without the white space at
/// its two ends.
pub uninterp spec fn trimmed_text(s: Seq<char>) -> Seq<char>;

/// Cuts the white space off both ends of `s` with `str::trim` of the
/// standard library, which goes by Unicode's `White_Space` property. The
/// contract only names the outcome.
#[verifier::external_body]
pub(crate) fn trim(s: &str) -> (cut: &str)
    ensures
        cut@ == trimmed_text(s@),
{
    s.trim()
}

/// What `str::to_lowercase` makes of a text.
pub uninterp spec fn lowercase_text(s: Seq<char>) -> Seq<char>;

/// Turns `s` to lower case with `str::to_lowercase` of the standard
/// library, which goes by Unicode's `Lowercase` mapping. The contract only
/// names the outcome.
#[verifier::external_body]
pub(crate) fn to_lowercase(s: &str) -> (lower: String)
    ensures
        lower@ == lowercase_text(s@),
{
    s.to_lowercase()
}

/// Whether `needle` stands somewhere in `hay` as a run of neighbouring
/// characters.
pub open spec fn occurs_in(needle: Seq<char>, hay: Seq<char>) -> bool {
    exists|start: int|
        0 <= start && start + needle.len() <= hay.len() && #[trigger] hay.subrange(
            start,
            start + needle.len(),
        ) == needle
}

/// Looks for `needle` in `hay` with `str::contains` of the standard library,
/// which is true exactly where the pattern matches a part of the text.
#[verifier::external_body]
pub(crate) fn contains(hay: &str, needle: &str) -> (found: bool)
    ensures
        found == occurs_in(needle@, hay@),
{
    hay.contains(needle)
}

/// The text of an optional string.
pub open spec fn optional_text(value: Option<String>) -> Option<Seq<char>> {
    match value {
        Some(text) => Some(text@),
        None => None,
    }
}

/// Formats an optional string as `{:?}` does.
pub fn debug_quote_optional(value: &Option<String>) -> (quoted: String)
    ensures
        quoted@ == debug_optional_text(optional_text(*value)),
{
    match value {
        Some(text) => {
            let mut quoted = String::from_str("Some(");
            quoted.append(debug_quote(text.as_str()).as_str());
            quoted.append(")");
            quoted
        },
        None => String::from_str("None"),
    }
}

} // verus!
