//! How an agent's final result is isolated from what it wrote to its output.

use vstd::prelude::*;

use crate::error::{outcome_view, BatonError, ErrorView};
use crate::outside::{json_document, json_member, json_parse, str_debug};
use crate::text::{
    blank, final_line, find_final_line, is_blank, law_final_line, quoted, trimmed,
};

verus! {

/// Isolates an agent's final result from its raw output.
#[derive(Debug, Clone, PartialEq, Eq)]
pub enum OutputAdapter {
    /// The whole output is the result.
    Raw,
    /// The result is the string at `result_key` in the last line that is not blank,
    /// read as a JSON object. Anything else is a failure.
    Json { result_key: String },
}

/// What a JSON document holds under one name.
#[derive(Debug, Clone, PartialEq, Eq)]
pub enum JsonField {
    Text(String),
    /// The name is there, with a value that is no string.
    NotText,
    Missing,
}

pub enum JsonFieldView {
    Text(Seq<char>),
    NotText,
    Missing,
}

impl View for JsonField {
    type V = JsonFieldView;

    open spec fn view(&self) -> JsonFieldView {
        match self {
            JsonField::Text(text) => JsonFieldView::Text(text@),
            JsonField::NotText => JsonFieldView::NotText,
            JsonField::Missing => JsonFieldView::Missing,
        }
    }
}

/// The field of `members` named `key`.
pub open spec fn field_of(
    members: Map<Seq<char>, Option<Seq<char>>>,
    key: Seq<char>,
) -> JsonFieldView {
    if !members.contains_key(key) {
        JsonFieldView::Missing
    } else {
        match members[key] {
            Some(text) => JsonFieldView::Text(text),
            None => JsonFieldView::NotText,
        }
    }
}

/// The field named `key` of the document that `line` holds, or what is wrong with
/// the line as JSON.
pub open spec fn line_field(line: Seq<char>, key: Seq<char>) -> Result<JsonFieldView, Seq<char>> {
    match json_document(line) {
        Ok(members) => Ok(field_of(members, key)),
        Err(problem) => Err(problem),
    }
}

/// The result that a line's field named `key` gives.
pub open spec fn field_result(
    field: Result<JsonFieldView, Seq<char>>,
    key: Seq<char>,
) -> Result<Seq<char>, ErrorView> {
    match field {
        Ok(JsonFieldView::Text(text)) => Ok(text),
        Ok(JsonFieldView::NotText) => Err(
            ErrorView::Decode(
                "external agent's JSON result field "@ + quoted(key) + " is not a string"@,
            ),
        ),
        Ok(JsonFieldView::Missing) => Err(
            ErrorView::Decode(
                "external agent's JSON output has no "@ + quoted(key) + " result field"@,
            ),
        ),
        Err(problem) => Err(
            ErrorView::Decode(
                "external agent's final output line is not a JSON object: "@ + problem,
            ),
        ),
    }
}

/// The result in `stdout` under the key `key`.
pub open spec fn json_result(stdout: Seq<char>, key: Seq<char>) -> Result<Seq<char>, ErrorView> {
    match final_line(stdout) {
        None => Err(
            ErrorView::Decode(
                "external agent produced no output line to extract a JSON result from"@,
            ),
        ),
        Some(line) => field_result(line_field(line, key), key),
    }
}

impl OutputAdapter {
    /// The result that the adapter isolates from `stdout`.
    pub open spec fn result(self, stdout: Seq<char>) -> Result<Seq<char>, ErrorView> {
        match self {
            OutputAdapter::Raw => Ok(stdout),
            OutputAdapter::Json { result_key } => json_result(stdout, result_key@),
        }
    }

    /// The body that an agent's reply has for `stdout`: the isolated result, unless
    /// the output or the result is blank.
    pub open spec fn body(self, stdout: Seq<char>) -> Result<Seq<char>, ErrorView> {
        if blank(stdout) {
            Err(ErrorView::Decode("external agent produced no output"@))
        } else {
            match self.result(stdout) {
                Ok(body) => if blank(body) {
                    Err(ErrorView::Decode("external agent produced an empty result"@))
                } else {
                    Ok(body)
                },
                Err(err) => Err(err),
            }
        }
    }

    /// Isolates the result from `stdout`.
    pub fn extract(&self, stdout: &str) -> (result: Result<String, BatonError>)
        ensures
            outcome_view(result) == self.result(stdout@),
    {
        match self {
            OutputAdapter::Raw => Ok(stdout.to_owned()),
            OutputAdapter::Json { result_key } => {
                match find_final_line(stdout) {
                    None => Err(
                        BatonError::Decode(
                            "external agent produced no output line to extract a JSON result from".to_owned(),
                        ),
                    ),
                    Some(line) => {
                        let field = find_field(line.as_str(), result_key.as_str());
                        result_of_field(field, result_key.as_str())
                    },
                }
            },
        }
    }

    /// The body of the reply for a run that wrote `stdout`.
    pub fn reply_body(&self, stdout: &str) -> (body: Result<String, BatonError>)
        ensures
            outcome_view(body) == self.body(stdout@),
    {
        if is_blank(stdout) {
            return Err(BatonError::Decode("external agent produced no output".to_owned()));
        }
        match self.extract(stdout) {
            Ok(body) => if is_blank(body.as_str()) {
                Err(BatonError::Decode("external agent produced an empty result".to_owned()))
            } else {
                Ok(body)
            },
            Err(err) => Err(err),
        }
    }
}

/// Reads `line` as JSON and looks up `key` in it.
pub fn find_field(line: &str, key: &str) -> (field: Result<JsonField, String>)
    ensures
        match field {
            Ok(found) => line_field(line@, key@) == Ok::<JsonFieldView, Seq<char>>(found@),
            Err(problem) => line_field(line@, key@) == Err::<JsonFieldView, Seq<char>>(problem@),
        },
{
    match json_parse(line) {
        Ok(value) => Ok(
            match json_member(&value, key) {
                Some(Some(text)) => JsonField::Text(text),
                Some(None) => JsonField::NotText,
                None => JsonField::Missing,
            },
        ),
        Err(problem) => Err(problem),
    }
}

/// The result for what a final line holds under `key`: only a string is one.
pub fn result_of_field(field: Result<JsonField, String>, key: &str) -> (result: Result<
    String,
    BatonError,
>)
    ensures
        outcome_view(result) == field_result(
            match field {
                Ok(found) => Ok(found@),
                Err(problem) => Err(problem@),
            },
            key@,
        ),
{
    match field {
        Ok(JsonField::Text(text)) => Ok(text),
        Ok(JsonField::NotText) => {
            let mut message = "external agent's JSON result field ".to_owned();
            message.append(str_debug(key).as_str());
            message.append(" is not a string");
            Err(BatonError::Decode(message))
        },
        Ok(JsonField::Missing) => {
            let mut message = "external agent's JSON output has no ".to_owned();
            message.append(str_debug(key).as_str());
            message.append(" result field");
            Err(BatonError::Decode(message))
        },
        Err(problem) => {
            let mut message = "external agent's final output line is not a JSON object: ".to_owned();
            message.append(problem.as_str());
            Err(BatonError::Decode(message))
        },
    }
}

/// The chatter above a run's final line, and the whitespace around that line, do not
/// reach the reply: what is isolated is what the line alone gives.
pub proof fn law_chatter_excluded(
    key: Seq<char>,
    chatter: Seq<char>,
    line: Seq<char>,
    tail: Seq<char>,
)
    requires
        forall|i: int| 0 <= i < line.len() ==> #[trigger] line[i] != '\n',
        !blank(line),
        blank(tail),
    ensures
        json_result(chatter + seq!['\n'] + (line + tail), key) == json_result(line, key),
        json_result(line, key) == field_result(line_field(trimmed(line), key), key),
{
    law_final_line(chatter, line, tail);
    law_final_line(chatter, line, Seq::empty());
    assert(line + Seq::<char>::empty() =~= line);
}

/// A JSON result is always the text of a string member: no other value is turned
/// into text.
pub proof fn law_json_result_is_a_string_member(stdout: Seq<char>, key: Seq<char>, body: Seq<char>)
    requires
        json_result(stdout, key) == Ok::<Seq<char>, ErrorView>(body),
    ensures
        final_line(stdout) is Some,
        json_document(final_line(stdout)->0) is Ok,
        json_document(final_line(stdout)->0)->Ok_0.contains_key(key),
        json_document(final_line(stdout)->0)->Ok_0[key] == Some(body),
{
}

/// A reply that carries a result carries one that is not blank.
pub proof fn law_body_filled(adapter: OutputAdapter, stdout: Seq<char>)
    requires
        adapter.body(stdout) is Ok,
    ensures
        !blank(adapter.body(stdout)->Ok_0),
        adapter.result(stdout) == adapter.body(stdout),
{
}

} // verus!
