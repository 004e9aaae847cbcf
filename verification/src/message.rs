//! The `baton.message/v1` envelope, the fresh identifiers of replies, and the reply
//! that answers a request.

use vstd::prelude::*;

use crate::record::{ExchangeView, WrappedExchange};
use crate::text::{decimal, decimal_text};

verus! {

broadcast use vstd::string::group_string_axioms;

/// What an envelope is for.
#[derive(Debug, Clone, Copy, PartialEq, Eq, Structural)]
pub enum MessageKind {
    Request,
    Response,
    Done,
    Error,
    Notify,
}

impl MessageKind {
    /// The kind as it is written in an envelope.
    pub open spec fn wire(self) -> Seq<char> {
        match self {
            MessageKind::Request => "request"@,
            MessageKind::Response => "response"@,
            MessageKind::Done => "done"@,
            MessageKind::Error => "error"@,
            MessageKind::Notify => "notify"@,
        }
    }

    /// The kind as it is written in an envelope.
    pub fn as_wire_str(self) -> (wire: &'static str)
        ensures
            wire@ == self.wire(),
    {
        match self {
            MessageKind::Request => "request",
            MessageKind::Response => "response",
            MessageKind::Done => "done",
            MessageKind::Error => "error",
            MessageKind::Notify => "notify",
        }
    }
}

/// One message of a conversation.
#[derive(Debug, Clone, PartialEq, Eq)]
pub struct MessageEnvelope {
    pub message_id: String,
    pub conversation_id: String,
    pub from: String,
    pub to: String,
    pub kind: MessageKind,
    pub body: String,
    pub ts_ms: u64,
    /// The message that this one answers.
    pub in_reply_to: Option<String>,
    /// The provider call that produced this message, where one did.
    pub exchange: Option<WrappedExchange>,
}

#[verifier::ext_equal]
pub struct EnvelopeView {
    pub message_id: Seq<char>,
    pub conversation_id: Seq<char>,
    pub from: Seq<char>,
    pub to: Seq<char>,
    pub kind: MessageKind,
    pub body: Seq<char>,
    pub ts_ms: u64,
    pub in_reply_to: Option<Seq<char>>,
    pub exchange: Option<ExchangeView>,
}

impl View for MessageEnvelope {
    type V = EnvelopeView;

    open spec fn view(&self) -> EnvelopeView {
        EnvelopeView {
            message_id: self.message_id@,
            conversation_id: self.conversation_id@,
            from: self.from@,
            to: self.to@,
            kind: self.kind,
            body: self.body@,
            ts_ms: self.ts_ms,
            in_reply_to: self.in_reply_to.deep_view(),
            exchange: self.exchange.deep_view(),
        }
    }
}

impl DeepView for MessageEnvelope {
    type V = EnvelopeView;

    open spec fn deep_view(&self) -> EnvelopeView {
        self@
    }
}

impl MessageEnvelope {
    /// An envelope that answers nothing and nests no record.
    pub fn new(
        message_id: String,
        conversation_id: String,
        from: String,
        to: String,
        kind: MessageKind,
        body: String,
        ts_ms: u64,
    ) -> (envelope: MessageEnvelope)
        ensures
            envelope@ == (EnvelopeView {
                message_id: message_id@,
                conversation_id: conversation_id@,
                from: from@,
                to: to@,
                kind,
                body: body@,
                ts_ms,
                in_reply_to: None,
                exchange: None,
            }),
    {
        MessageEnvelope {
            message_id,
            conversation_id,
            from,
            to,
            kind,
            body,
            ts_ms,
            in_reply_to: None,
            exchange: None,
        }
    }
}

/// The counter that makes the identifiers of replies distinct. The clock does not:
/// replies that are built in a tight loop can share a millisecond.
#[derive(Debug)]
pub struct ResponseSeq {
    next: u64,
}

impl View for ResponseSeq {
    /// The number that the next draw gives.
    type V = u64;

    closed spec fn view(&self) -> u64 {
        self.next
    }
}

/// The counter's value after one draw at `n`.
pub open spec fn seq_after(n: u64) -> u64 {
    if n == u64::MAX {
        0
    } else {
        (n + 1) as u64
    }
}

impl ResponseSeq {
    /// A counter from which nothing was drawn.
    pub fn new() -> (seq: ResponseSeq)
        ensures
            seq@ == 0,
    {
        ResponseSeq { next: 0 }
    }

    /// Draws the next number.
    pub fn draw(&mut self) -> (n: u64)
        ensures
            n == old(self)@,
            final(self)@ == seq_after(old(self)@),
    {
        let n = self.next;
        self.next = if n == u64::MAX {
            0
        } else {
            n + 1
        };
        n
    }
}

/// The identifier of the reply that is built in `conversation` at `ts_ms` with the
/// counter's number `n`.
pub open spec fn reply_id(conversation: Seq<char>, ts_ms: u64, n: u64) -> Seq<char> {
    conversation + "-r-"@ + decimal(ts_ms as nat) + "-"@ + decimal(n as nat)
}

/// Builds a fresh identifier for a reply: the conversation, the time, and a number
/// drawn from `seq`, which no other reply of the process draws.
pub fn fresh_message_id(conversation_id: &str, ts_ms: u64, seq: &mut ResponseSeq) -> (id: String)
    ensures
        id@ == reply_id(conversation_id@, ts_ms, old(seq)@),
        final(seq)@ == seq_after(old(seq)@),
{
    let n = seq.draw();
    let mut id = conversation_id.to_owned();
    id.append("-r-");
    id.append(decimal_text(ts_ms as u128).as_str());
    id.append("-");
    id.append(decimal_text(n as u128).as_str());
    id
}

/// The reply of the given identifier, kind, body and time to `request`: the
/// conversation is kept, the addresses are swapped, the request is named as what is
/// answered, and no record is nested.
pub open spec fn reply_to(
    request: EnvelopeView,
    message_id: Seq<char>,
    kind: MessageKind,
    body: Seq<char>,
    ts_ms: u64,
) -> EnvelopeView {
    EnvelopeView {
        message_id,
        conversation_id: request.conversation_id,
        from: request.to,
        to: request.from,
        kind,
        body,
        ts_ms,
        in_reply_to: Some(request.message_id),
        exchange: None,
    }
}

/// [`reply_to`] with the identifier that the counter's number `n` gives.
pub open spec fn fresh_reply(
    request: EnvelopeView,
    kind: MessageKind,
    body: Seq<char>,
    ts_ms: u64,
    n: u64,
) -> EnvelopeView {
    reply_to(request, reply_id(request.conversation_id, ts_ms, n), kind, body, ts_ms)
}

/// Builds the reply to `request` with a fresh identifier.
pub fn correlated_reply(
    request: &MessageEnvelope,
    kind: MessageKind,
    body: String,
    ts_ms: u64,
    seq: &mut ResponseSeq,
) -> (reply: MessageEnvelope)
    ensures
        reply@ == fresh_reply(request@, kind, body@, ts_ms, old(seq)@),
        final(seq)@ == seq_after(old(seq)@),
{
    let mut reply = MessageEnvelope::new(
        fresh_message_id(request.conversation_id.as_str(), ts_ms, seq),
        request.conversation_id.clone(),
        request.to.clone(),
        request.from.clone(),
        kind,
        body,
        ts_ms,
    );
    reply.in_reply_to = Some(request.message_id.clone());
    reply
}

/// Builds the delivered error for a failure of the machinery around `request`.
pub fn synthesize_error_response(
    request: &MessageEnvelope,
    message: &str,
    ts_ms: u64,
    seq: &mut ResponseSeq,
) -> (reply: MessageEnvelope)
    ensures
        reply@ == fresh_reply(request@, MessageKind::Error, message@, ts_ms, old(seq)@),
        final(seq)@ == seq_after(old(seq)@),
{
    correlated_reply(request, MessageKind::Error, message.to_owned(), ts_ms, seq)
}

} // verus!
