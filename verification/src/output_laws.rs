//! What holds of the results that are isolated from an agent's output.

use vstd::prelude::*;

use crate::error::ErrorView;
use crate::outside::json_document;
use crate::output::{field_result, line_field, JsonField, JsonFieldView, OutputAdapter};
use crate::text::{blank, lemma_blank_has_no_final_line, quoted};
use crate::text_laws::{bare_ends, law_final_line_is_the_last_filled};

verus! {

/// `core`, with whitespace around it, is a line by itself.
pub open spec fn is_line_around(a: Seq<char>, core: Seq<char>, b: Seq<char>) -> bool {
    &&& blank(a)
    &&& blank(b)
    &&& core.len() > 0
    &&& bare_ends(core)
    &&& forall|i: int| 0 <= i < (a + core + b).len() ==> #[trigger] (a + core + b)[i] != '\n'
}

/// `stdout` ends with the line of `core`: only whitespace stands behind it, and where
/// anything stands before it a line feed does.
pub open spec fn ends_with_line(
    stdout: Seq<char>,
    above: Option<Seq<char>>,
    a: Seq<char>,
    core: Seq<char>,
    b: Seq<char>,
    tail: Seq<char>,
) -> bool {
    &&& is_line_around(a, core, b)
    &&& blank(tail)
    &&& match above {
        Some(text) => stdout == text + seq!['\n'] + (a + core + b + tail),
        None => stdout == a + core + b + tail,
    }
}

/// Where the final line is a JSON document whose member under the key is a string, the
/// result is the text of that string, whatever characters it holds.
pub proof fn law_string_member_is_the_result(
    key: String,
    stdout: Seq<char>,
    above: Option<Seq<char>>,
    a: Seq<char>,
    core: Seq<char>,
    b: Seq<char>,
    tail: Seq<char>,
    members: Map<Seq<char>, Option<Seq<char>>>,
    text: Seq<char>,
)
    requires
        ends_with_line(stdout, above, a, core, b, tail),
        json_document(core) == Ok::<Map<Seq<char>, Option<Seq<char>>>, Seq<char>>(members),
        members.contains_key(key@),
        members[key@] == Some(text),
    ensures
        (OutputAdapter::Json { result_key: key }).result(stdout) == Ok::<Seq<char>, ErrorView>(text),
{
    law_final_line_is_the_last_filled(
        match above {
            Some(text) => text,
            None => Seq::empty(),
        },
        a,
        core,
        b,
        tail,
    );
}

/// Where the final line is no such document, there is no result, and the failure says
/// what is wrong: it is no JSON, it lacks the member, or the member is no string.
pub proof fn law_no_string_member_no_result(
    key: String,
    stdout: Seq<char>,
    above: Option<Seq<char>>,
    a: Seq<char>,
    core: Seq<char>,
    b: Seq<char>,
    tail: Seq<char>,
)
    requires
        ends_with_line(stdout, above, a, core, b, tail),
    ensures
        ({
            let result = (OutputAdapter::Json { result_key: key }).result(stdout);
            match json_document(core) {
                Err(problem) => result == Err::<Seq<char>, ErrorView>(
                    ErrorView::Decode(
                        "external agent's final output line is not a JSON object: "@ + problem,
                    ),
                ),
                Ok(members) => {
                    &&& !members.contains_key(key@) ==> result == Err::<Seq<char>, ErrorView>(
                        ErrorView::Decode(
                            "external agent's JSON output has no "@ + quoted(key@)
                                + " result field"@,
                        ),
                    )
                    &&& members.contains_key(key@) && members[key@] is None ==> result == Err::<
                        Seq<char>,
                        ErrorView,
                    >(
                        ErrorView::Decode(
                            "external agent's JSON result field "@ + quoted(key@)
                                + " is not a string"@,
                        ),
                    )
                },
            }
        }),
{
    law_final_line_is_the_last_filled(
        match above {
            Some(text) => text,
            None => Seq::empty(),
        },
        a,
        core,
        b,
        tail,
    );
}

/// Blank output has no line to take a result from, and raw output is its own result.
pub proof fn law_result_without_a_line(key: String, stdout: Seq<char>)
    ensures
        blank(stdout) ==> (OutputAdapter::Json { result_key: key }).result(stdout) == Err::<
            Seq<char>,
            ErrorView,
        >(
            ErrorView::Decode(
                "external agent produced no output line to extract a JSON result from"@,
            ),
        ),
        OutputAdapter::Raw.result(stdout) == Ok::<Seq<char>, ErrorView>(stdout),
{
    if blank(stdout) {
        lemma_blank_has_no_final_line(stdout);
    }
}

/// A reply carries the isolated result as it is, unless the output or the result is blank:
/// then it carries the failure that says which.
pub proof fn law_reply_body(adapter: OutputAdapter, stdout: Seq<char>)
    ensures
        blank(stdout) ==> adapter.body(stdout) == Err::<Seq<char>, ErrorView>(
            ErrorView::Decode("external agent produced no output"@),
        ),
        !blank(stdout) ==> match adapter.result(stdout) {
            Ok(result) => adapter.body(stdout) == if blank(result) {
                Err::<Seq<char>, ErrorView>(
                    ErrorView::Decode("external agent produced an empty result"@),
                )
            } else {
                Ok(result)
            },
            Err(err) => adapter.body(stdout) == Err::<Seq<char>, ErrorView>(err),
        },
{
}

/// What a line holds under a name: the text of a string member whatever it is, the fact
/// that the member is no string, or that there is none; and of a line that is no JSON,
/// what is wrong with it.
pub proof fn law_field_of_a_line(line: Seq<char>, key: Seq<char>, text: Seq<char>)
    ensures
        match json_document(line) {
            Ok(members) => {
                &&& members.contains_key(key) && members[key] == Some(text) ==> line_field(
                    line,
                    key,
                ) == Ok::<JsonFieldView, Seq<char>>(JsonFieldView::Text(text))
                &&& members.contains_key(key) && members[key] is None ==> line_field(line, key)
                    == Ok::<JsonFieldView, Seq<char>>(JsonFieldView::NotText)
                &&& !members.contains_key(key) ==> line_field(line, key) == Ok::<
                    JsonFieldView,
                    Seq<char>,
                >(JsonFieldView::Missing)
            },
            Err(problem) => line_field(line, key) == Err::<JsonFieldView, Seq<char>>(problem),
        },
{
}

/// The result that a field gives, and the failure that each other finding gives.
pub proof fn law_result_of_a_field(text: Seq<char>, problem: Seq<char>, key: Seq<char>)
    ensures
        field_result(Ok(JsonFieldView::Text(text)), key) == Ok::<Seq<char>, ErrorView>(text),
        field_result(Ok(JsonFieldView::NotText), key) == Err::<Seq<char>, ErrorView>(
            ErrorView::Decode(
                "external agent's JSON result field "@ + quoted(key) + " is not a string"@,
            ),
        ),
        field_result(Ok(JsonFieldView::Missing), key) == Err::<Seq<char>, ErrorView>(
            ErrorView::Decode(
                "external agent's JSON output has no "@ + quoted(key) + " result field"@,
            ),
        ),
        field_result(Err(problem), key) == Err::<Seq<char>, ErrorView>(
            ErrorView::Decode(
                "external agent's final output line is not a JSON object: "@ + problem,
            ),
        ),
{
}

/// A finding is told by itself.
pub proof fn law_field_by_its_content(text: String)
    ensures
        JsonField::Text(text)@ == JsonFieldView::Text(text@),
        JsonField::NotText@ == JsonFieldView::NotText,
        JsonField::Missing@ == JsonFieldView::Missing,
{
}

} // verus!
