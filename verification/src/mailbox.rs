//! The participant that answers through a peer's mailbox.
//!
//! The host delivers the request, looks for the reply and sleeps; when to do which,
//! and what the turn amounts to, is decided here. A [`MailboxTurn`] names the next
//! action, and the host hands back what came of it as a [`MailboxEvent`].

use vstd::prelude::*;

use crate::error::{outcome_view, BatonError, ErrorView};
use crate::message::{seq_after, EnvelopeView, MessageEnvelope, ResponseSeq};
use crate::outside::str_debug;
use crate::participant::{deliver_answer, delivered};
use crate::span::{Span, NANOS_PER_MILLI};
use crate::text::{decimal, decimal_text, quoted};

verus! {

broadcast use vstd::string::group_string_axioms;

/// A participant that puts each request into a peer's inbox and waits for the reply
/// in the peer's outbox.
///
/// A reply that answers the request is delivered as it is. A delivery that failed, a
/// reply that did not come in time, or one that answers something else, is delivered
/// as an error that nests no record.
#[derive(Debug)]
pub struct MailboxParticipant {
    inbox: String,
    outbox: String,
    await_timeout: Span,
    poll_interval: Span,
}

#[verifier::ext_equal]
pub struct MailboxView {
    pub inbox: Seq<char>,
    pub outbox: Seq<char>,
    pub await_timeout: nat,
    pub poll_interval: nat,
}

impl View for MailboxParticipant {
    type V = MailboxView;

    closed spec fn view(&self) -> MailboxView {
        MailboxView {
            inbox: self.inbox@,
            outbox: self.outbox@,
            await_timeout: self.await_timeout@,
            poll_interval: self.poll_interval@,
        }
    }
}

/// What the host is to do next.
#[derive(Debug)]
pub enum MailboxAction {
    /// Deliver the request to this inbox.
    Deliver { inbox: String },
    /// Take the reply to this message out of this outbox, if it is there.
    Claim { outbox: String, message_id: String },
    /// Sleep for this long.
    Sleep(Span),
    /// Nothing: the turn is finished.
    Nothing,
}

pub enum MailboxActionView {
    Deliver { inbox: Seq<char> },
    Claim { outbox: Seq<char>, message_id: Seq<char> },
    Sleep(nat),
    Nothing,
}

impl View for MailboxAction {
    type V = MailboxActionView;

    open spec fn view(&self) -> MailboxActionView {
        match self {
            MailboxAction::Deliver { inbox } => MailboxActionView::Deliver { inbox: inbox@ },
            MailboxAction::Claim { outbox, message_id } => MailboxActionView::Claim {
                outbox: outbox@,
                message_id: message_id@,
            },
            MailboxAction::Sleep(length) => MailboxActionView::Sleep(length@),
            MailboxAction::Nothing => MailboxActionView::Nothing,
        }
    }
}

/// What came of an action.
#[derive(Debug)]
pub enum MailboxEvent {
    Delivered,
    /// The delivery, or the look for the reply, failed.
    Failed(BatonError),
    Claimed(MessageEnvelope),
    /// No reply is there; this long has passed since the request was delivered.
    Absent { elapsed: Span },
    Slept,
}

pub enum MailboxEventView {
    Delivered,
    Failed(ErrorView),
    Claimed(EnvelopeView),
    Absent { elapsed: nat },
    Slept,
}

impl View for MailboxEvent {
    type V = MailboxEventView;

    open spec fn view(&self) -> MailboxEventView {
        match self {
            MailboxEvent::Delivered => MailboxEventView::Delivered,
            MailboxEvent::Failed(err) => MailboxEventView::Failed(err@),
            MailboxEvent::Claimed(reply) => MailboxEventView::Claimed(reply@),
            MailboxEvent::Absent { elapsed } => MailboxEventView::Absent { elapsed: elapsed@ },
            MailboxEvent::Slept => MailboxEventView::Slept,
        }
    }
}

/// An optional text as `{:?}` writes it.
pub open spec fn quoted_optional(text: Option<Seq<char>>) -> Seq<char> {
    match text {
        Some(text) => "Some("@ + quoted(text) + ")"@,
        None => "None"@,
    }
}

fn optional_debug(text: &Option<String>) -> (form: String)
    ensures
        form@ == quoted_optional(text.deep_view()),
{
    match text {
        Some(text) => "Some(".to_owned().concat(str_debug(text.as_str()).as_str()).concat(")"),
        None => "None".to_owned(),
    }
}

/// What a reply that was found amounts to for the request `id`: only one that answers
/// this request is an answer.
pub open spec fn claimed_answer(id: Seq<char>, reply: EnvelopeView) -> Result<
    EnvelopeView,
    ErrorView,
> {
    if reply.in_reply_to == Some(id) {
        Ok(reply)
    } else {
        Err(
            ErrorView::Transport(
                "reply "@ + quoted(reply.message_id) + " has in_reply_to "@ + quoted_optional(
                    reply.in_reply_to,
                ) + ", expected "@ + quoted(id),
            ),
        )
    }
}

/// The failure of a wait for the reply to `id` that lasted `nanos` nanoseconds.
pub open spec fn await_failure(id: Seq<char>, nanos: nat) -> ErrorView {
    ErrorView::Transport(
        "await timed out after "@ + decimal(nanos / NANOS_PER_MILLI as nat)
            + "ms without a correlated reply to "@ + quoted(id),
    )
}

/// How far a turn has come.
#[derive(Debug)]
enum TurnStage {
    Delivering,
    Claiming,
    Sleeping(Span),
    Finished(Result<MessageEnvelope, BatonError>),
}

pub enum TurnStageView {
    Delivering,
    Claiming,
    Sleeping(nat),
    Finished(Result<EnvelopeView, ErrorView>),
}

impl View for TurnStage {
    type V = TurnStageView;

    closed spec fn view(&self) -> TurnStageView {
        match self {
            TurnStage::Delivering => TurnStageView::Delivering,
            TurnStage::Claiming => TurnStageView::Claiming,
            TurnStage::Sleeping(length) => TurnStageView::Sleeping(length@),
            TurnStage::Finished(answer) => TurnStageView::Finished(outcome_view(*answer)),
        }
    }
}

/// A turn by its values.
pub struct MailboxTurnView {
    pub mailbox: MailboxView,
    pub request_id: Seq<char>,
    pub stage: TurnStageView,
}

impl MailboxTurnView {
    /// What the host is to do at this point of the turn.
    pub open spec fn action(self) -> MailboxActionView {
        match self.stage {
            TurnStageView::Delivering => MailboxActionView::Deliver { inbox: self.mailbox.inbox },
            TurnStageView::Claiming => MailboxActionView::Claim {
                outbox: self.mailbox.outbox,
                message_id: self.request_id,
            },
            TurnStageView::Sleeping(length) => MailboxActionView::Sleep(length),
            TurnStageView::Finished(_) => MailboxActionView::Nothing,
        }
    }

    /// The stage after no reply was found `elapsed` after the delivery: the end of the
    /// wait, or a sleep of the poll interval that does not outlast the wait.
    pub open spec fn stage_absent(self, elapsed: nat) -> TurnStageView {
        if elapsed >= self.mailbox.await_timeout {
            TurnStageView::Finished(
                Err(await_failure(self.request_id, self.mailbox.await_timeout)),
            )
        } else {
            let remaining = (self.mailbox.await_timeout - elapsed) as nat;
            TurnStageView::Sleeping(
                if self.mailbox.poll_interval <= remaining {
                    self.mailbox.poll_interval
                } else {
                    remaining
                },
            )
        }
    }

    /// The stage after `event`. An event that does not answer the current action
    /// leaves the stage as it is.
    pub open spec fn stage_after(self, event: MailboxEventView) -> TurnStageView {
        match (self.stage, event) {
            (TurnStageView::Delivering, MailboxEventView::Delivered) => TurnStageView::Claiming,
            (TurnStageView::Delivering, MailboxEventView::Failed(err)) => TurnStageView::Finished(
                Err(err),
            ),
            (TurnStageView::Claiming, MailboxEventView::Failed(err)) => TurnStageView::Finished(
                Err(err),
            ),
            (TurnStageView::Claiming, MailboxEventView::Claimed(reply)) => TurnStageView::Finished(
                claimed_answer(self.request_id, reply),
            ),
            (TurnStageView::Claiming, MailboxEventView::Absent { elapsed }) => self.stage_absent(
                elapsed,
            ),
            (TurnStageView::Sleeping(_), MailboxEventView::Slept) => TurnStageView::Claiming,
            _ => self.stage,
        }
    }

    /// The turn after `event`.
    pub open spec fn after(self, event: MailboxEventView) -> MailboxTurnView {
        MailboxTurnView { stage: self.stage_after(event), ..self }
    }
}

/// One round trip over a mailbox.
#[derive(Debug)]
pub struct MailboxTurn {
    inbox: String,
    outbox: String,
    await_timeout: Span,
    poll_interval: Span,
    request_id: String,
    stage: TurnStage,
}

impl View for MailboxTurn {
    type V = MailboxTurnView;

    closed spec fn view(&self) -> MailboxTurnView {
        MailboxTurnView {
            mailbox: MailboxView {
                inbox: self.inbox@,
                outbox: self.outbox@,
                await_timeout: self.await_timeout@,
                poll_interval: self.poll_interval@,
            },
            request_id: self.request_id@,
            stage: self.stage@,
        }
    }
}

impl MailboxParticipant {
    /// A participant that delivers to `inbox` and waits for the reply in `outbox`,
    /// looking every `poll_interval`, for no longer than `await_timeout`.
    pub fn new(
        inbox: String,
        outbox: String,
        await_timeout: Span,
        poll_interval: Span,
    ) -> (participant: MailboxParticipant)
        ensures
            participant@ == (MailboxView {
                inbox: inbox@,
                outbox: outbox@,
                await_timeout: await_timeout@,
                poll_interval: poll_interval@,
            }),
    {
        MailboxParticipant { inbox, outbox, await_timeout, poll_interval }
    }

    /// A turn for `request` in which nothing was done yet.
    pub fn start(&self, request: &MessageEnvelope) -> (turn: MailboxTurn)
        ensures
            turn@ == (MailboxTurnView {
                mailbox: self@,
                request_id: request@.message_id,
                stage: TurnStageView::Delivering,
            }),
    {
        MailboxTurn {
            inbox: self.inbox.clone(),
            outbox: self.outbox.clone(),
            await_timeout: self.await_timeout,
            poll_interval: self.poll_interval,
            request_id: request.message_id.clone(),
            stage: TurnStage::Delivering,
        }
    }

    /// The reply to `request` after a turn that gave `answer`.
    pub fn respond(
        &self,
        request: &MessageEnvelope,
        answer: Result<MessageEnvelope, BatonError>,
        ts_ms: u64,
        seq: &mut ResponseSeq,
    ) -> (response: MessageEnvelope)
        ensures
            response@ == delivered(request@, outcome_view(answer), ts_ms, old(seq)@),
            final(seq)@ == if answer is Ok {
                old(seq)@
            } else {
                seq_after(old(seq)@)
            },
    {
        deliver_answer(request, answer, ts_ms, seq)
    }
}

impl MailboxTurn {
    /// What the host is to do next.
    pub fn action(&self) -> (action: MailboxAction)
        ensures
            action@ == self@.action(),
    {
        match &self.stage {
            TurnStage::Delivering => MailboxAction::Deliver { inbox: self.inbox.clone() },
            TurnStage::Claiming => MailboxAction::Claim {
                outbox: self.outbox.clone(),
                message_id: self.request_id.clone(),
            },
            TurnStage::Sleeping(length) => MailboxAction::Sleep(*length),
            TurnStage::Finished(_) => MailboxAction::Nothing,
        }
    }

    fn judge(&self, reply: MessageEnvelope) -> (answer: Result<MessageEnvelope, BatonError>)
        ensures
            outcome_view(answer) == claimed_answer(self@.request_id, reply@),
    {
        let correlated = match &reply.in_reply_to {
            Some(id) => *id == self.request_id,
            None => false,
        };
        if correlated {
            return Ok(reply);
        }
        let mut message = "reply ".to_owned();
        message.append(str_debug(reply.message_id.as_str()).as_str());
        message.append(" has in_reply_to ");
        message.append(optional_debug(&reply.in_reply_to).as_str());
        message.append(", expected ");
        message.append(str_debug(self.request_id.as_str()).as_str());
        Err(BatonError::Transport(message))
    }

    fn wait_on(&self, elapsed: Span) -> (stage: TurnStage)
        ensures
            stage@ == self@.stage_absent(elapsed@),
    {
        let remaining = self.await_timeout.saturating_sub(elapsed);
        if remaining.is_zero() {
            let mut message = "await timed out after ".to_owned();
            message.append(decimal_text(self.await_timeout.as_millis()).as_str());
            message.append("ms without a correlated reply to ");
            message.append(str_debug(self.request_id.as_str()).as_str());
            TurnStage::Finished(Err(BatonError::Transport(message)))
        } else {
            TurnStage::Sleeping(self.poll_interval.min(remaining))
        }
    }

    /// The turn after `event` came of the current action.
    pub fn step(self, event: MailboxEvent) -> (turn: MailboxTurn)
        ensures
            turn@ == self@.after(event@),
    {
        let mut turn = self;
        let next: Option<TurnStage> = match (&turn.stage, event) {
            (TurnStage::Delivering, MailboxEvent::Delivered) => Some(TurnStage::Claiming),
            (TurnStage::Delivering, MailboxEvent::Failed(err)) => Some(
                TurnStage::Finished(Err(err)),
            ),
            (TurnStage::Claiming, MailboxEvent::Failed(err)) => Some(TurnStage::Finished(Err(err))),
            (TurnStage::Claiming, MailboxEvent::Claimed(reply)) => Some(
                TurnStage::Finished(turn.judge(reply)),
            ),
            (TurnStage::Claiming, MailboxEvent::Absent { elapsed }) => Some(turn.wait_on(elapsed)),
            (TurnStage::Sleeping(_), MailboxEvent::Slept) => Some(TurnStage::Claiming),
            _ => None,
        };
        if let Some(stage) = next {
            turn.stage = stage;
        }
        turn
    }

    /// What the turn gave, once it is finished.
    pub fn into_answer(self) -> (answer: Option<Result<MessageEnvelope, BatonError>>)
        ensures
            match answer {
                Some(answer) => self@.stage == TurnStageView::Finished(outcome_view(answer)),
                None => !(self@.stage is Finished),
            },
    {
        match self.stage {
            TurnStage::Finished(answer) => Some(answer),
            _ => None,
        }
    }
}

/// A turn after `events`, in order.
pub open spec fn turn_after(turn: MailboxTurnView, events: Seq<MailboxEventView>) -> MailboxTurnView
    decreases events.len(),
{
    if events.len() == 0 {
        turn
    } else {
        turn_after(turn, events.drop_last()).after(events.last())
    }
}

/// A turn that has not begun.
pub open spec fn turn_start(mailbox: MailboxView, request_id: Seq<char>) -> MailboxTurnView {
    MailboxTurnView { mailbox, request_id, stage: TurnStageView::Delivering }
}

/// Whatever happens in a turn, what it hands back as an answer is a reply that was
/// found in the outbox, unchanged, and that answers this request.
pub proof fn law_answer_is_correlated(
    mailbox: MailboxView,
    request_id: Seq<char>,
    events: Seq<MailboxEventView>,
    reply: EnvelopeView,
)
    requires
        turn_after(turn_start(mailbox, request_id), events).stage == TurnStageView::Finished(
            Ok(reply),
        ),
    ensures
        reply.in_reply_to == Some(request_id),
        events.contains(MailboxEventView::Claimed(reply)),
    decreases events.len(),
{
    let before = events.drop_last();
    let turn = turn_after(turn_start(mailbox, request_id), before);
    lemma_turn_constants(turn_start(mailbox, request_id), before);
    assert(events[events.len() - 1] == events.last());
    if turn.stage is Finished {
        law_answer_is_correlated(mailbox, request_id, before, reply);
        let i = choose|i: int|
            0 <= i < before.len() && before[i] == MailboxEventView::Claimed(reply);
        assert(events[i] == MailboxEventView::Claimed(reply));
    }
}

proof fn lemma_turn_constants(turn: MailboxTurnView, events: Seq<MailboxEventView>)
    ensures
        turn_after(turn, events).mailbox == turn.mailbox,
        turn_after(turn, events).request_id == turn.request_id,
    decreases events.len(),
{
    if events.len() > 0 {
        lemma_turn_constants(turn, events.drop_last());
    }
}

/// A turn never sleeps longer than the poll interval, nor past the end of its wait,
/// and it goes on to sleep only while time is left; once none is, it ends with the
/// failure that names the wait.
pub proof fn law_wait_is_bounded(turn: MailboxTurnView, elapsed: nat)
    requires
        turn.stage is Claiming,
    ensures
        match turn.after(MailboxEventView::Absent { elapsed }).stage {
            TurnStageView::Sleeping(length) => {
                &&& elapsed < turn.mailbox.await_timeout
                &&& length <= turn.mailbox.poll_interval
                &&& elapsed + length <= turn.mailbox.await_timeout
            },
            TurnStageView::Finished(answer) => {
                &&& elapsed >= turn.mailbox.await_timeout
                &&& answer == Err::<EnvelopeView, ErrorView>(
                    await_failure(turn.request_id, turn.mailbox.await_timeout),
                )
            },
            _ => false,
        },
{
}

/// The request is delivered once: a turn that has gone on never delivers again, and a
/// finished one stays as it is.
pub proof fn law_request_delivered_once(turn: MailboxTurnView, event: MailboxEventView)
    ensures
        !(turn.stage is Delivering) ==> !(turn.after(event).action() is Deliver),
        turn.stage is Finished ==> turn.after(event) == turn,
        turn.stage is Delivering && event is Delivered ==> turn.after(event).action() is Claim,
{
}

/// A reply that is there when it is first looked for is found, however short the wait.
pub proof fn law_waiting_reply_found(
    mailbox: MailboxView,
    request_id: Seq<char>,
    reply: EnvelopeView,
)
    ensures
        turn_start(mailbox, request_id).after(MailboxEventView::Delivered).after(
            MailboxEventView::Claimed(reply),
        ).stage == TurnStageView::Finished(claimed_answer(request_id, reply)),
{
}

} // verus!
