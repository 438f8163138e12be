//! Outside types that the library carries through without looking inside,
//! and the calls into outside crates that the logic makes.
use vstd::prelude::*;
use colored::Colorize;

verus! {

/// `std::io::Error`, carried through opaquely.
#[verifier::external_type_specification]
#[verifier::external_body]
pub struct ExIoError(std::io::Error);

/// `notify::Error`, carried through opaquely.
#[verifier::external_type_specification]
#[verifier::external_body]
pub struct ExNotifyError(notify::Error);

/// What `url::Url::parse` (re-exported as `reqwest::Url`) makes of a text: the
/// serialization of the parsed URL, or nothing where the text is no valid absolute URL.
pub uninterp spec fn parsed_url(text: Seq<char>) -> Option<Seq<char>>;

/// Calls `reqwest::Url::parse` and hands back the parsed URL's serialization
/// (`Url::as_str`). Claimed: the result is `parsed_url` of the text; nothing more is said of
/// what the parser accepts or how it normalizes.
#[verifier::external_body]
pub(crate) fn parse_url(text: &str) -> (r: Option<String>)
    ensures
        match r {
            Some(u) => parsed_url(text@) == Some(u@),
            None => parsed_url(text@) is None,
        },
{
    match reqwest::Url::parse(text) {
        Ok(url) => Some(url.as_str().to_string()),
        Err(_) => None,
    }
}

/// The escape sequence that `colored` writes before text colored blue.
pub open spec fn blue_start() -> Seq<char> {
    seq!['\u{1b}', '[', '3', '4', 'm']
}

/// The escape sequence that `colored` writes after colored text.
pub open spec fn color_reset() -> Seq<char> {
    seq!['\u{1b}', '[', '0', 'm']
}

/// Calls `colored::Colorize::blue` on the text and renders it with `to_string`.
/// Whether `colored` colors at all depends on the environment (`CLICOLOR`,
/// `CLICOLOR_FORCE`, `NO_COLOR`, whether standard output is a terminal). Claimed: for a
/// text without an escape character the result is the text itself, or the text between
/// the blue escape sequence and the reset sequence. Of a text that holds an escape
/// character nothing is said (`colored` then rewrites reset sequences inside it).
#[verifier::external_body]
pub(crate) fn blue(text: &str) -> (r: String)
    ensures
        !text@.contains('\u{1b}') ==> (r@ == text@ || r@ == blue_start() + text@ + color_reset()),
{
    text.blue().to_string()
}

/// Calls `String::push`. Claimed, as its documentation says: the character is appended.
#[verifier::external_body]
pub(crate) fn push_char(s: &mut String, c: char)
    ensures
        final(s)@ == old(s)@.push(c),
{
    s.push(c)
}

} // verus!
