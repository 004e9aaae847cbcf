//! The seam between a conversation and whoever answers in it.

use vstd::prelude::*;

use crate::error::{outcome_view, BatonError, ErrorView};
use crate::message::{
    fresh_reply, seq_after, synthesize_error_response, EnvelopeView, MessageEnvelope, MessageKind,
    ResponseSeq,
};
use crate::text::decimal;

verus! {

/// Answers a request envelope with a response envelope.
///
/// A participant always answers: a failure is delivered as a reply of the error
/// kind. Participants share nothing with one another but the envelopes.
pub trait Participant {
    /// Answers one request.
    fn respond(&self, request: &MessageEnvelope) -> MessageEnvelope;

    /// Answers the requests of a batch, with one response to each, in their order.
    ///
    /// Unless a participant does otherwise, each request is answered on its own.
    fn respond_batch(&self, requests: &[MessageEnvelope]) -> (responses: Vec<MessageEnvelope>)
        ensures
            responses.len() == requests.len(),
        default_ensures
            forall|i: int|
                0 <= i < requests.len() ==> call_ensures(
                    Self::respond,
                    (self, &requests[i]),
                    #[trigger] responses[i],
                ),
    {
        let mut responses: Vec<MessageEnvelope> = Vec::new();
        let mut i: usize = 0;
        while i < requests.len()
            invariant
                i <= requests.len(),
                responses.len() == i,
                forall|j: int|
                    0 <= j < i ==> call_ensures(
                        Self::respond,
                        (self, &requests[j]),
                        #[trigger] responses[j],
                    ),
            decreases requests.len() - i,
        {
            responses.push(self.respond(&requests[i]));
            i += 1;
        }
        responses
    }
}

/// The reply that an answer, or the failure to get one, amounts to: an answer is
/// delivered as it is, and a failure as an error that nests no record.
pub open spec fn delivered(
    request: EnvelopeView,
    answer: Result<EnvelopeView, ErrorView>,
    ts_ms: u64,
    n: u64,
) -> EnvelopeView {
    match answer {
        Ok(reply) => reply,
        Err(err) => fresh_reply(request, MessageKind::Error, err.text(), ts_ms, n),
    }
}

/// Delivers the answer to `request`, or the failure to get one.
pub fn deliver_answer(
    request: &MessageEnvelope,
    answer: Result<MessageEnvelope, BatonError>,
    ts_ms: u64,
    seq: &mut ResponseSeq,
) -> (reply: MessageEnvelope)
    ensures
        reply@ == delivered(request@, outcome_view(answer), ts_ms, old(seq)@),
        answer matches Ok(given) ==> reply == given && final(seq)@ == old(seq)@,
        answer is Err ==> final(seq)@ == seq_after(old(seq)@),
{
    match answer {
        Ok(reply) => reply,
        Err(err) => synthesize_error_response(request, err.to_text().as_str(), ts_ms, seq),
    }
}

/// What the other side answered is delivered unchanged. A failure to get an answer is
/// delivered as an error that belongs to the request and nests no record, so it can be
/// told from an error that the other side answered with a record.
pub proof fn law_delivered_error_boundary(
    request: EnvelopeView,
    answer: Result<EnvelopeView, ErrorView>,
    ts_ms: u64,
    n: u64,
)
    ensures
        match answer {
            Ok(reply) => delivered(request, answer, ts_ms, n) == reply,
            Err(err) => {
                let reply = delivered(request, answer, ts_ms, n);
                &&& reply.kind == MessageKind::Error
                &&& reply.body == err.text()
                &&& reply.ts_ms == ts_ms
                &&& reply.message_id == request.conversation_id + "-r-"@ + decimal(ts_ms as nat)
                    + "-"@ + decimal(n as nat)
                &&& reply.exchange is None
                &&& reply.conversation_id == request.conversation_id
                &&& reply.from == request.to
                &&& reply.to == request.from
                &&& reply.in_reply_to == Some(request.message_id)
            },
        },
{
}

} // verus!
