//! The failures that a participant's machinery meets.

use vstd::prelude::*;

verus! {

/// A failure of the machinery around a reply, with a description.
#[derive(Debug, Clone, PartialEq, Eq)]
pub enum BatonError {
    /// The host system refused an operation.
    Io(String),
    /// Output could not be understood.
    Decode(String),
    /// The other side could not be reached or did not answer properly.
    Transport(String),
}

/// A failure by the characters of its description.
pub enum ErrorView {
    Io(Seq<char>),
    Decode(Seq<char>),
    Transport(Seq<char>),
}

impl View for BatonError {
    type V = ErrorView;

    open spec fn view(&self) -> ErrorView {
        match self {
            BatonError::Io(text) => ErrorView::Io(text@),
            BatonError::Decode(text) => ErrorView::Decode(text@),
            BatonError::Transport(text) => ErrorView::Transport(text@),
        }
    }
}

impl ErrorView {
    /// The failure in words, as a delivered error carries it.
    pub open spec fn text(self) -> Seq<char> {
        match self {
            ErrorView::Io(text) => "io error: "@ + text,
            ErrorView::Decode(text) => "decode error: "@ + text,
            ErrorView::Transport(text) => "transport error: "@ + text,
        }
    }
}

/// A result by the views of what it holds.
pub open spec fn outcome_view<T: View>(outcome: Result<T, BatonError>) -> Result<T::V, ErrorView> {
    match outcome {
        Ok(value) => Ok(value@),
        Err(err) => Err(err@),
    }
}

impl BatonError {
    /// The failure in words, as a delivered error carries it.
    pub fn to_text(&self) -> (text: String)
        ensures
            text@ == self@.text(),
    {
        match self {
            BatonError::Io(detail) => "io error: ".to_owned().concat(detail.as_str()),
            BatonError::Decode(detail) => "decode error: ".to_owned().concat(detail.as_str()),
            BatonError::Transport(detail) => "transport error: ".to_owned().concat(detail.as_str()),
        }
    }
}

/// A failure says which it is and then its whole description.
pub proof fn law_failure_in_words(description: String)
    ensures
        BatonError::Io(description)@ == ErrorView::Io(description@),
        BatonError::Decode(description)@ == ErrorView::Decode(description@),
        BatonError::Transport(description)@ == ErrorView::Transport(description@),
        BatonError::Io(description)@.text() == "io error: "@ + description@,
        BatonError::Decode(description)@.text() == "decode error: "@ + description@,
        BatonError::Transport(description)@.text() == "transport error: "@ + description@,
{
}

/// A result is told by what it holds: a success by its value and a failure by itself.
pub proof fn law_outcome_by_its_content<T: View>(value: T, err: BatonError)
    ensures
        outcome_view(Ok::<T, BatonError>(value)) == Ok::<T::V, ErrorView>(value@),
        outcome_view(Err::<T, BatonError>(err)) == Err::<T::V, ErrorView>(err@),
{
}

} // verus!
