//! The `baton.exchange/v1` record of one provider call.

use vstd::prelude::*;

verus! {

/// The schema name that every wrapped record carries.
pub const EXCHANGE_SCHEMA: &'static str = "baton.exchange/v1";

/// What identifies the provider on a record.
#[derive(Debug, Clone, PartialEq, Eq)]
pub struct ExchangeMeta {
    pub model: String,
    pub base_url: String,
}

/// The request half of a record.
#[derive(Debug, Clone, PartialEq, Eq)]
pub struct RequestRecord {
    pub ts_ms: u64,
    pub model: String,
    pub base_url: String,
    pub prompt: String,
    pub session_id: Option<String>,
    pub turn_index: Option<u64>,
}

/// How a provider call ended.
#[derive(Debug, Clone, PartialEq, Eq)]
pub enum Outcome {
    Success {
        ts_ms: u64,
        duration_ms: u64,
        reply: String,
        input_tokens: Option<u64>,
        output_tokens: Option<u64>,
        stop_reason: Option<String>,
    },
    Error { ts_ms: u64, duration_ms: u64, kind: String, message: String },
}

/// One provider call: what was asked and how it ended.
#[derive(Debug, Clone, PartialEq, Eq)]
pub struct Exchange {
    pub request: RequestRecord,
    pub outcome: Outcome,
}

/// A record as it is nested in an envelope, with the name of its schema.
#[derive(Debug, Clone, PartialEq, Eq)]
pub struct WrappedExchange {
    pub schema: String,
    pub exchange: Exchange,
}

#[verifier::ext_equal]
pub struct RequestRecordView {
    pub ts_ms: u64,
    pub model: Seq<char>,
    pub base_url: Seq<char>,
    pub prompt: Seq<char>,
    pub session_id: Option<Seq<char>>,
    pub turn_index: Option<u64>,
}

#[verifier::ext_equal]
pub enum OutcomeView {
    Success {
        ts_ms: u64,
        duration_ms: u64,
        reply: Seq<char>,
        input_tokens: Option<u64>,
        output_tokens: Option<u64>,
        stop_reason: Option<Seq<char>>,
    },
    Error { ts_ms: u64, duration_ms: u64, kind: Seq<char>, message: Seq<char> },
}

#[verifier::ext_equal]
pub struct ExchangeView {
    pub schema: Seq<char>,
    pub request: RequestRecordView,
    pub outcome: OutcomeView,
}

impl View for RequestRecord {
    type V = RequestRecordView;

    open spec fn view(&self) -> RequestRecordView {
        RequestRecordView {
            ts_ms: self.ts_ms,
            model: self.model@,
            base_url: self.base_url@,
            prompt: self.prompt@,
            session_id: self.session_id.deep_view(),
            turn_index: self.turn_index,
        }
    }
}

impl View for Outcome {
    type V = OutcomeView;

    open spec fn view(&self) -> OutcomeView {
        match self {
            Outcome::Success {
                ts_ms,
                duration_ms,
                reply,
                input_tokens,
                output_tokens,
                stop_reason,
            } => OutcomeView::Success {
                ts_ms: *ts_ms,
                duration_ms: *duration_ms,
                reply: reply@,
                input_tokens: *input_tokens,
                output_tokens: *output_tokens,
                stop_reason: stop_reason.deep_view(),
            },
            Outcome::Error { ts_ms, duration_ms, kind, message } => OutcomeView::Error {
                ts_ms: *ts_ms,
                duration_ms: *duration_ms,
                kind: kind@,
                message: message@,
            },
        }
    }
}

impl View for WrappedExchange {
    type V = ExchangeView;

    open spec fn view(&self) -> ExchangeView {
        ExchangeView {
            schema: self.schema@,
            request: self.exchange.request@,
            outcome: self.exchange.outcome@,
        }
    }
}

impl DeepView for WrappedExchange {
    type V = ExchangeView;

    open spec fn deep_view(&self) -> ExchangeView {
        self@
    }
}

impl WrappedExchange {
    /// Wraps `exchange` under its schema's name.
    pub fn new(exchange: Exchange) -> (wrapped: WrappedExchange)
        ensures
            wrapped.schema@ == EXCHANGE_SCHEMA@,
            wrapped.exchange == exchange,
    {
        WrappedExchange { schema: EXCHANGE_SCHEMA.to_owned(), exchange }
    }
}

/// What is said of a nested record is said of all that it holds, field by field.
pub proof fn law_record_by_its_fields(wrapped: WrappedExchange)
    ensures
        EXCHANGE_SCHEMA@ == "baton.exchange/v1"@,
        wrapped@.schema == wrapped.schema@,
        ({
            let record = wrapped.exchange.request;
            let seen = wrapped@.request;
            &&& seen.ts_ms == record.ts_ms
            &&& seen.model == record.model@
            &&& seen.base_url == record.base_url@
            &&& seen.prompt == record.prompt@
            &&& seen.turn_index == record.turn_index
            &&& match record.session_id {
                Some(id) => seen.session_id == Some(id@),
                None => seen.session_id is None,
            }
        }),
        match wrapped.exchange.outcome {
            Outcome::Success {
                ts_ms,
                duration_ms,
                reply,
                input_tokens,
                output_tokens,
                stop_reason,
            } => {
                &&& wrapped@.outcome is Success
                &&& wrapped@.outcome->Success_ts_ms == ts_ms
                &&& wrapped@.outcome->Success_duration_ms == duration_ms
                &&& wrapped@.outcome->reply == reply@
                &&& wrapped@.outcome->input_tokens == input_tokens
                &&& wrapped@.outcome->output_tokens == output_tokens
                &&& match stop_reason {
                    Some(reason) => wrapped@.outcome->stop_reason == Some(reason@),
                    None => wrapped@.outcome->stop_reason is None,
                }
            },
            Outcome::Error { ts_ms, duration_ms, kind, message } => {
                &&& wrapped@.outcome is Error
                &&& wrapped@.outcome->Error_ts_ms == ts_ms
                &&& wrapped@.outcome->Error_duration_ms == duration_ms
                &&& wrapped@.outcome->kind == kind@
                &&& wrapped@.outcome->message == message@
            },
        },
{
}

} // verus!
