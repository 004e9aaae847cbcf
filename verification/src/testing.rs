//! Participants that need no host, for tests of what drives a conversation.

use vstd::prelude::*;

use crate::message::{reply_to, EnvelopeView, MessageEnvelope, MessageKind};
use crate::participant::Participant;
use crate::record::{
    Exchange, ExchangeView, Outcome, OutcomeView, RequestRecord, RequestRecordView,
    WrappedExchange, EXCHANGE_SCHEMA,
};

verus! {

broadcast use vstd::string::group_string_axioms;

/// The millisecond after `ts_ms`, from the largest one back to nought.
pub open spec fn next_ms(ts_ms: u64) -> u64 {
    if ts_ms == u64::MAX {
        0
    } else {
        (ts_ms + 1) as u64
    }
}

/// The reply to `request` whose identifier and time follow from the request alone.
pub open spec fn fixed_reply(
    request: EnvelopeView,
    kind: MessageKind,
    body: Seq<char>,
) -> EnvelopeView {
    reply_to(
        request,
        request.conversation_id + "-r-"@ + request.message_id,
        kind,
        body,
        next_ms(request.ts_ms),
    )
}

/// Builds the reply to `request` without a clock and without a counter.
pub fn correlated_reply(request: &MessageEnvelope, kind: MessageKind, body: String) -> (reply:
    MessageEnvelope)
    ensures
        reply@ == fixed_reply(request@, kind, body@),
{
    let mut id = request.conversation_id.clone();
    id.append("-r-");
    id.append(request.message_id.as_str());
    let mut reply = MessageEnvelope::new(
        id,
        request.conversation_id.clone(),
        request.to.clone(),
        request.from.clone(),
        kind,
        body,
        request.ts_ms.wrapping_add(1),
    );
    reply.in_reply_to = Some(request.message_id.clone());
    reply
}

/// A participant that always gives the same answer and never ends a conversation by
/// itself.
#[derive(Debug)]
pub struct LoopingParticipant {
    body: String,
    usage: Option<(u64, u64)>,
}

impl LoopingParticipant {
    /// What every reply says.
    pub closed spec fn says(&self) -> Seq<char> {
        self.body@
    }

    /// The tokens that every reply reports to have read and written, where it does.
    pub closed spec fn counts(&self) -> Option<(u64, u64)> {
        self.usage
    }

    /// The record that the reply to `request` nests where `usage` is reported.
    pub open spec fn record(&self, request: EnvelopeView, usage: (u64, u64)) -> ExchangeView {
        ExchangeView {
            schema: EXCHANGE_SCHEMA@,
            request: RequestRecordView {
                ts_ms: request.ts_ms,
                model: "fake-model"@,
                base_url: "fake-base-url"@,
                prompt: request.body,
                session_id: None,
                turn_index: None,
            },
            outcome: OutcomeView::Success {
                ts_ms: next_ms(request.ts_ms),
                duration_ms: 0,
                reply: self.says(),
                input_tokens: Some(usage.0),
                output_tokens: Some(usage.1),
                stop_reason: None,
            },
        }
    }

    /// The reply to `request`.
    pub open spec fn reply(&self, request: EnvelopeView) -> EnvelopeView {
        EnvelopeView {
            exchange: match self.counts() {
                Some(usage) => Some(self.record(request, usage)),
                None => None,
            },
            ..fixed_reply(request, MessageKind::Response, self.says())
        }
    }

    /// A participant whose replies nest no record.
    pub fn new(body: String) -> (participant: LoopingParticipant)
        ensures
            participant.says() == body@,
            participant.counts() is None,
    {
        LoopingParticipant { body, usage: None }
    }

    /// A participant whose replies nest a record of `input` tokens read and `output`
    /// tokens written.
    pub fn with_usage(body: String, input: u64, output: u64) -> (participant: LoopingParticipant)
        ensures
            participant.says() == body@,
            participant.counts() == Some((input, output)),
    {
        LoopingParticipant { body, usage: Some((input, output)) }
    }
}

impl Participant for LoopingParticipant {
    fn respond(&self, request: &MessageEnvelope) -> (response: MessageEnvelope)
        ensures
            response@ == self.reply(request@),
    {
        let mut response = correlated_reply(request, MessageKind::Response, self.body.clone());
        if let Some((input, output)) = self.usage {
            response.exchange = Some(
                WrappedExchange::new(
                    Exchange {
                        request: RequestRecord {
                            ts_ms: request.ts_ms,
                            model: "fake-model".to_owned(),
                            base_url: "fake-base-url".to_owned(),
                            prompt: request.body.clone(),
                            session_id: None,
                            turn_index: None,
                        },
                        outcome: Outcome::Success {
                            ts_ms: request.ts_ms.wrapping_add(1),
                            duration_ms: 0,
                            reply: self.body.clone(),
                            input_tokens: Some(input),
                            output_tokens: Some(output),
                            stop_reason: None,
                        },
                    },
                ),
            );
        }
        response
    }
}

/// A participant that ends a conversation with every reply.
#[derive(Debug)]
pub struct DoneParticipant;

impl Participant for DoneParticipant {
    fn respond(&self, request: &MessageEnvelope) -> (response: MessageEnvelope)
        ensures
            response@ == fixed_reply(request@, MessageKind::Done, "done"@),
    {
        correlated_reply(request, MessageKind::Done, "done".to_owned())
    }
}

/// Answering a batch, unless a participant does otherwise, is answering each of its
/// requests: the replies are those to the requests by themselves, in their order.
pub proof fn law_default_batch_answers_each(
    participant: &LoopingParticipant,
    requests: &[MessageEnvelope],
    responses: Vec<MessageEnvelope>,
)
    requires
        call_ensures(LoopingParticipant::respond_batch, (participant, requests), responses),
    ensures
        responses.len() == requests.len(),
        forall|i: int|
            0 <= i < requests.len() ==> (#[trigger] responses[i])@ == participant.reply(
                requests[i]@,
            ),
{
}

/// A fixed reply belongs to its request and follows from it alone.
pub proof fn law_fixed_reply(request: EnvelopeView, kind: MessageKind, body: Seq<char>)
    ensures
        ({
            let reply = fixed_reply(request, kind, body);
            &&& reply.message_id == request.conversation_id + "-r-"@ + request.message_id
            &&& reply.conversation_id == request.conversation_id
            &&& reply.from == request.to
            &&& reply.to == request.from
            &&& reply.kind == kind
            &&& reply.body == body
            &&& request.ts_ms < u64::MAX ==> reply.ts_ms == request.ts_ms + 1
            &&& request.ts_ms == u64::MAX ==> reply.ts_ms == 0
            &&& reply.in_reply_to == Some(request.message_id)
            &&& reply.exchange is None
        }),
{
}

/// A looping participant says the same to every request, and reports the same usage of
/// every call that it did not make.
pub proof fn law_looping_reply(participant: LoopingParticipant, request: EnvelopeView)
    ensures
        ({
            let reply = participant.reply(request);
            &&& reply.message_id == request.conversation_id + "-r-"@ + request.message_id
            &&& reply.conversation_id == request.conversation_id
            &&& reply.from == request.to
            &&& reply.to == request.from
            &&& reply.kind == MessageKind::Response
            &&& reply.body == participant.says()
            &&& request.ts_ms < u64::MAX ==> reply.ts_ms == request.ts_ms + 1
            &&& reply.in_reply_to == Some(request.message_id)
            &&& match participant.counts() {
                None => reply.exchange is None,
                Some((input, output)) => {
                    let record = reply.exchange->0;
                    &&& reply.exchange is Some
                    &&& record.schema == "baton.exchange/v1"@
                    &&& record.request.ts_ms == request.ts_ms
                    &&& record.request.model == "fake-model"@
                    &&& record.request.base_url == "fake-base-url"@
                    &&& record.request.prompt == request.body
                    &&& record.request.session_id is None
                    &&& record.request.turn_index is None
                    &&& record.outcome is Success
                    &&& record.outcome->Success_ts_ms == reply.ts_ms
                    &&& record.outcome->Success_duration_ms == 0
                    &&& record.outcome->reply == participant.says()
                    &&& record.outcome->input_tokens == Some(input)
                    &&& record.outcome->output_tokens == Some(output)
                    &&& record.outcome->stop_reason is None
                },
            }
        }),
{
}

} // verus!
