//! The participant that answers with one call to a provider.

use vstd::prelude::*;

use crate::message::{
    correlated_reply, fresh_reply, seq_after, EnvelopeView, MessageEnvelope, MessageKind,
    ResponseSeq,
};
use crate::record::{
    Exchange, ExchangeMeta, ExchangeView, Outcome, OutcomeView, RequestRecord, RequestRecordView,
    WrappedExchange, EXCHANGE_SCHEMA,
};
use crate::text::decimal;

verus! {

broadcast use vstd::string::group_string_axioms;

/// The tokens that a provider counted, where it reported them.
#[derive(Debug, Clone, Copy, PartialEq, Eq)]
pub struct Usage {
    pub input_tokens: Option<u64>,
    pub output_tokens: Option<u64>,
}

/// What a provider answered.
#[derive(Debug, Clone, PartialEq, Eq)]
pub struct ProviderReply {
    pub text: String,
    pub usage: Usage,
    /// Why the provider stopped, where it said so.
    pub stop_reason: Option<String>,
}

/// Why a provider did not answer: a machine-readable kind and a description.
#[derive(Debug, Clone, PartialEq, Eq)]
pub struct ProviderFailure {
    pub kind: String,
    pub message: String,
}

/// One call to a provider: when it was made, when and after how long it ended, and
/// what came of it.
#[derive(Debug)]
pub struct ProviderCall {
    pub request_ts: u64,
    pub outcome_ts: u64,
    pub duration_ms: u64,
    pub result: Result<ProviderReply, ProviderFailure>,
}

/// The body of the reply to `call`.
pub open spec fn call_body(call: ProviderCall) -> Seq<char> {
    match call.result {
        Ok(reply) => reply.text@,
        Err(failure) => failure.message@,
    }
}

/// The kind of the reply to `call`: an error exactly where the provider failed.
pub open spec fn call_kind(call: ProviderCall) -> MessageKind {
    match call.result {
        Ok(_) => MessageKind::Response,
        Err(_) => MessageKind::Error,
    }
}

/// The record of `call`, made for `request` to the provider that `meta` names.
pub open spec fn call_record(
    meta: ExchangeMeta,
    request: EnvelopeView,
    call: ProviderCall,
) -> ExchangeView {
    ExchangeView {
        schema: EXCHANGE_SCHEMA@,
        request: RequestRecordView {
            ts_ms: call.request_ts,
            model: meta.model@,
            base_url: meta.base_url@,
            prompt: request.body,
            session_id: None,
            turn_index: None,
        },
        outcome: match call.result {
            Ok(reply) => OutcomeView::Success {
                ts_ms: call.outcome_ts,
                duration_ms: call.duration_ms,
                reply: reply.text@,
                input_tokens: reply.usage.input_tokens,
                output_tokens: reply.usage.output_tokens,
                stop_reason: reply.stop_reason.deep_view(),
            },
            Err(failure) => OutcomeView::Error {
                ts_ms: call.outcome_ts,
                duration_ms: call.duration_ms,
                kind: failure.kind@,
                message: failure.message@,
            },
        },
    }
}

/// The reply to `request` after `call`: correlated to the request, with the call's
/// record nested.
pub open spec fn local_reply(
    meta: ExchangeMeta,
    request: EnvelopeView,
    call: ProviderCall,
    n: u64,
) -> EnvelopeView {
    EnvelopeView {
        exchange: Some(call_record(meta, request, call)),
        ..fresh_reply(request, call_kind(call), call_body(call), call.outcome_ts, n)
    }
}

/// A participant in the process, backed by a provider that `transport` reaches. Each
/// reply is one call.
#[derive(Debug)]
pub struct LocalParticipant<T> {
    transport: T,
    meta: ExchangeMeta,
}

impl<T> LocalParticipant<T> {
    /// The transport that calls go through.
    pub closed spec fn spec_transport(&self) -> T {
        self.transport
    }

    /// What is stamped onto the record of each reply.
    pub closed spec fn spec_meta(&self) -> ExchangeMeta {
        self.meta
    }

    /// A participant over `transport` that stamps `meta` onto the record of each
    /// reply.
    pub fn new(transport: T, meta: ExchangeMeta) -> (participant: Self)
        ensures
            participant.spec_transport() == transport,
            participant.spec_meta() == meta,
    {
        LocalParticipant { transport, meta }
    }

    /// The transport that the host is to call with [`prompt`](Self::prompt).
    pub fn transport(&self) -> (transport: &T)
        ensures
            *transport == self.spec_transport(),
    {
        &self.transport
    }

    /// What the provider is asked for `request`: its body.
    pub fn prompt<'a>(&self, request: &'a MessageEnvelope) -> (prompt: &'a str)
        ensures
            prompt@ == request@.body,
    {
        request.body.as_str()
    }

    /// The reply to `request` once the provider was called.
    pub fn respond(
        &self,
        request: &MessageEnvelope,
        call: ProviderCall,
        seq: &mut ResponseSeq,
    ) -> (response: MessageEnvelope)
        ensures
            response@ == local_reply(self.spec_meta(), request@, call, old(seq)@),
            final(seq)@ == seq_after(old(seq)@),
    {
        let request_record = RequestRecord {
            ts_ms: call.request_ts,
            model: self.meta.model.clone(),
            base_url: self.meta.base_url.clone(),
            prompt: request.body.clone(),
            session_id: None,
            turn_index: None,
        };
        let outcome_ts = call.outcome_ts;
        let duration_ms = call.duration_ms;
        let (kind, body, outcome) = match call.result {
            Ok(reply) => {
                let text = reply.text.clone();
                (
                    MessageKind::Response,
                    text,
                    Outcome::Success {
                        ts_ms: outcome_ts,
                        duration_ms,
                        reply: reply.text,
                        input_tokens: reply.usage.input_tokens,
                        output_tokens: reply.usage.output_tokens,
                        stop_reason: reply.stop_reason,
                    },
                )
            },
            Err(failure) => {
                let text = failure.message.clone();
                (
                    MessageKind::Error,
                    text,
                    Outcome::Error {
                        ts_ms: outcome_ts,
                        duration_ms,
                        kind: failure.kind,
                        message: failure.message,
                    },
                )
            },
        };
        let mut response = correlated_reply(request, kind, body, outcome_ts, seq);
        response.exchange = Some(
            WrappedExchange::new(Exchange { request: request_record, outcome }),
        );
        response
    }
}

/// Every reply of a provider-backed participant nests the record of its call, for the
/// prompt that was the request's body; it is an error exactly where the call failed,
/// and its body is what the record holds.
pub proof fn law_local_reply_nests_its_call(
    meta: ExchangeMeta,
    request: EnvelopeView,
    call: ProviderCall,
    n: u64,
)
    ensures
        ({
            let reply = local_reply(meta, request, call, n);
            &&& reply.exchange is Some
            &&& reply.exchange->0.request.prompt == request.body
            &&& (reply.kind == MessageKind::Error <==> reply.exchange->0.outcome is Error)
            &&& reply.body == match reply.exchange->0.outcome {
                OutcomeView::Success { reply: text, .. } => text,
                OutcomeView::Error { message, .. } => message,
            }
            &&& reply.conversation_id == request.conversation_id
            &&& reply.from == request.to
            &&& reply.to == request.from
            &&& reply.in_reply_to == Some(request.message_id)
        }),
{
}

/// A provider that answers is quoted in full: its text is the reply's body, and the record
/// holds that text, the reported tokens and the reason to stop as they came.
pub proof fn law_provider_answer_in_full(
    meta: ExchangeMeta,
    request: EnvelopeView,
    call: ProviderCall,
    answer: ProviderReply,
    n: u64,
)
    requires
        call.result == Ok::<ProviderReply, ProviderFailure>(answer),
    ensures
        ({
            let reply = local_reply(meta, request, call, n);
            let outcome = reply.exchange->0.outcome;
            &&& reply.kind == MessageKind::Response
            &&& reply.body == answer.text@
            &&& outcome is Success
            &&& outcome->reply == answer.text@
            &&& outcome->Success_ts_ms == call.outcome_ts
            &&& outcome->Success_duration_ms == call.duration_ms
            &&& outcome->input_tokens == answer.usage.input_tokens
            &&& outcome->output_tokens == answer.usage.output_tokens
            &&& match answer.stop_reason {
                Some(reason) => outcome->stop_reason == Some(reason@),
                None => outcome->stop_reason is None,
            }
        }),
{
}

/// A provider that fails is quoted in full too: its description is the reply's body, and
/// the record holds that description and the failure's kind.
pub proof fn law_provider_failure_in_full(
    meta: ExchangeMeta,
    request: EnvelopeView,
    call: ProviderCall,
    failure: ProviderFailure,
    n: u64,
)
    requires
        call.result == Err::<ProviderReply, ProviderFailure>(failure),
    ensures
        ({
            let reply = local_reply(meta, request, call, n);
            let outcome = reply.exchange->0.outcome;
            &&& reply.kind == MessageKind::Error
            &&& reply.body == failure.message@
            &&& outcome is Error
            &&& outcome->Error_ts_ms == call.outcome_ts
            &&& outcome->Error_duration_ms == call.duration_ms
            &&& outcome->kind == failure.kind@
            &&& outcome->message == failure.message@
        }),
{
}

/// However a call ends, its record tells what was asked, of whom and when, and the reply is
/// dated by the call's end.
pub proof fn law_provider_call_on_record(
    meta: ExchangeMeta,
    request: EnvelopeView,
    call: ProviderCall,
    n: u64,
)
    ensures
        ({
            let reply = local_reply(meta, request, call, n);
            let record = reply.exchange->0;
            &&& reply.exchange is Some
            &&& record.schema == "baton.exchange/v1"@
            &&& record.request.ts_ms == call.request_ts
            &&& record.request.model == meta.model@
            &&& record.request.base_url == meta.base_url@
            &&& record.request.prompt == request.body
            &&& record.request.session_id is None
            &&& record.request.turn_index is None
            &&& reply.ts_ms == call.outcome_ts
            &&& reply.message_id == request.conversation_id + "-r-"@ + decimal(
                call.outcome_ts as nat,
            ) + "-"@ + decimal(n as nat)
            &&& reply.conversation_id == request.conversation_id
            &&& reply.from == request.to
            &&& reply.to == request.from
            &&& reply.in_reply_to == Some(request.message_id)
        }),
{
}

} // verus!
