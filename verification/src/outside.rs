//! What the library takes from `std` and from `serde_json`. The contracts here are
//! believed, not proved; each says what it claims of the function it calls.

use vstd::prelude::*;
use vstd::utf8::valid_first_scalar;

use crate::bytes::{last_feed, text_of, REPLACEMENT};
use crate::text::{is_white, plain, quoted};

verus! {

/// `char::is_whitespace`: holds of exactly the characters with the Unicode
/// `White_Space` property.
#[verifier::external_body]
pub(crate) fn char_is_whitespace(c: char) -> (res: bool)
    ensures
        res == is_white(c),
{
    c.is_whitespace()
}

/// Whether Unicode counts a character as alphabetic or numeric.
pub uninterp spec fn alphanumeric(c: char) -> bool;

/// `char::is_alphanumeric`: a fixed set of characters, which among the ASCII ones
/// holds exactly the letters and the digits.
#[verifier::external_body]
pub(crate) fn char_is_alphanumeric(c: char) -> (res: bool)
    ensures
        res == alphanumeric(c),
        (c as u32) < 128 ==> (res <==> ('0' <= c <= '9' || 'A' <= c <= 'Z' || 'a' <= c <= 'z')),
{
    c.is_alphanumeric()
}

/// `String::push` appends one character.
pub assume_specification[ String::push ](s: &mut String, c: char)
    ensures
        final(s)@ == old(s)@.push(c),
;

/// The text behind the first replacement character, for bytes that do not begin with
/// UTF-8 and hold no line feed.
pub uninterp spec fn lossy_text(bytes: Seq<u8>) -> Seq<char>;

/// `String::from_utf8_lossy`: what is UTF-8 is decoded as it is, and only sequences
/// that are not UTF-8 are replaced, each by a replacement character. A line feed is a
/// whole sequence wherever it stands, so each line is read by itself. What is read behind
/// the first replacement of a line is a function of the bytes from there on, of which
/// nothing more is said.
#[verifier::external_body]
pub(crate) fn from_utf8_lossy(bytes: &[u8]) -> (text: String)
    ensures
        text@ == text_of(bytes@),
        last_feed(bytes@) < 0 && bytes@.len() > 1 && !valid_first_scalar(bytes@) ==> text@
            == seq![REPLACEMENT] + lossy_text(bytes@),
{
    String::from_utf8_lossy(bytes).into_owned()
}

/// A text in quotes, with escapes for what is not plain.
pub uninterp spec fn debug_text(text: Seq<char>) -> Seq<char>;

/// The `Debug` form of a `str`: plain text in quotes as it is. The form of other text
/// is a function of it, of which nothing more is said.
#[verifier::external_body]
pub(crate) fn str_debug(text: &str) -> (form: String)
    ensures
        form@ == quoted(text@),
        !plain(text@) ==> form@ == debug_text(text@),
{
    format!("{:?}", text)
}

/// The `Debug` form of a `Path` whose text is `path`: plain text in quotes as it is.
/// Systems escape other paths in their own ways, so nothing is said of their form.
#[verifier::external_body]
pub(crate) fn path_debug(path: &str) -> (form: String)
    ensures
        plain(path@) ==> form@ == quoted(path@),
{
    format!("{:?}", std::path::Path::new(path))
}

/// A length of time as `{:?}` writes it.
pub uninterp spec fn debug_duration(secs: u64, nanos: u32) -> Seq<char>;

/// The `Debug` form of the `Duration` of `secs` seconds and `nanos` nanoseconds: a
/// function of the two numbers, of which nothing more is said.
#[verifier::external_body]
pub(crate) fn duration_debug(secs: u64, nanos: u32) -> (form: String)
    requires
        nanos < 1_000_000_000,
    ensures
        form@ == debug_duration(secs, nanos),
{
    format!("{:?}", std::time::Duration::new(secs, nanos))
}

/// A parsed JSON document.
#[verifier::external_type_specification]
#[verifier::external_body]
pub struct ExJsonValue(serde_json::Value);

/// The members of a JSON object by name: the text of each whose value is a string,
/// and `None` for each whose value is not. A document that is no object has none.
pub uninterp spec fn json_members(value: serde_json::Value) -> Map<Seq<char>, Option<Seq<char>>>;

/// What a text holds as JSON: the members of the document, or the description of
/// what is wrong with it.
pub uninterp spec fn json_document(text: Seq<char>) -> Result<
    Map<Seq<char>, Option<Seq<char>>>,
    Seq<char>,
>;

/// `serde_json::from_str` into a `serde_json::Value`, with the error as its
/// `Display` form: a function of the text.
#[verifier::external_body]
pub(crate) fn json_parse(text: &str) -> (parsed: Result<serde_json::Value, String>)
    ensures
        match parsed {
            Ok(value) => json_document(text@) == Ok::<
                Map<Seq<char>, Option<Seq<char>>>,
                Seq<char>,
            >(json_members(value)),
            Err(problem) => json_document(text@) == Err::<
                Map<Seq<char>, Option<Seq<char>>>,
                Seq<char>,
            >(problem@),
        },
{
    match serde_json::from_str(text) {
        Ok(value) => Ok(value),
        Err(err) => Err(err.to_string()),
    }
}

/// `serde_json::Value::get` by a member's name: the member's value where the
/// document is an object that has it, here as its text where it is a string.
#[verifier::external_body]
pub(crate) fn json_member(value: &serde_json::Value, name: &str) -> (member: Option<Option<String>>)
    ensures
        match member {
            Some(found) => json_members(*value).contains_key(name@)
                && json_members(*value)[name@] == found.deep_view(),
            None => !json_members(*value).contains_key(name@),
        },
{
    match value.get(name) {
        Some(serde_json::Value::String(text)) => Some(Some(text.clone())),
        Some(_) => Some(None),
        None => None,
    }
}

} // verus!
