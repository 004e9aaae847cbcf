//! What holds of every turn over a mailbox.

use vstd::prelude::*;

use crate::error::{BatonError, ErrorView};
use crate::mailbox::{
    MailboxAction, MailboxActionView, MailboxEvent, MailboxEventView, MailboxTurnView,
    TurnStageView,
};
use crate::message::{EnvelopeView, MessageEnvelope};
use crate::span::Span;
use crate::text::{decimal, quoted};

verus! {

/// A reply that answers the request is the answer, unchanged, whatever its kind, whatever
/// it says and whether or not it nests a record.
pub proof fn law_correlated_reply_is_the_answer(turn: MailboxTurnView, reply: EnvelopeView)
    requires
        turn.action() is Claim,
        reply.in_reply_to == Some(turn.request_id),
    ensures
        turn.after(MailboxEventView::Claimed(reply)).stage == TurnStageView::Finished(Ok(reply)),
{
}

/// A reply that answers something else, or nothing, is a failure that names the reply, what
/// it answers and what was asked.
pub proof fn law_other_reply_is_refused(turn: MailboxTurnView, reply: EnvelopeView)
    requires
        turn.action() is Claim,
    ensures
        ({
            let after = turn.after(MailboxEventView::Claimed(reply)).stage;
            match reply.in_reply_to {
                None => after == TurnStageView::Finished(
                    Err(
                        ErrorView::Transport(
                            "reply "@ + quoted(reply.message_id) + " has in_reply_to "@ + "None"@
                                + ", expected "@ + quoted(turn.request_id),
                        ),
                    ),
                ),
                Some(id) => id != turn.request_id ==> after == TurnStageView::Finished(
                    Err(
                        ErrorView::Transport(
                            "reply "@ + quoted(reply.message_id) + " has in_reply_to "@ + ("Some("@
                                + quoted(id) + ")"@) + ", expected "@ + quoted(turn.request_id),
                        ),
                    ),
                ),
            }
        }),
{
}

/// A delivery or a look that fails ends the turn with that failure as it is.
pub proof fn law_mailbox_failure_is_the_answer(turn: MailboxTurnView, err: ErrorView)
    requires
        turn.action() is Deliver || turn.action() is Claim,
    ensures
        turn.after(MailboxEventView::Failed(err)).stage == TurnStageView::Finished(Err(err)),
{
}

/// While no reply is there, a turn sleeps for the poll interval, or for the rest of its wait
/// where that is shorter, and looks again; once the wait is over it ends with a failure
/// that tells how many milliseconds it lasted and for what.
pub proof fn law_wait_for_a_reply(turn: MailboxTurnView, elapsed: nat)
    requires
        turn.action() is Claim,
    ensures
        ({
            let after = turn.after(MailboxEventView::Absent { elapsed });
            let wait = turn.mailbox.await_timeout;
            let poll = turn.mailbox.poll_interval;
            &&& elapsed + poll <= wait && elapsed < wait ==> after.action()
                == MailboxActionView::Sleep(poll)
            &&& elapsed < wait < elapsed + poll ==> after.action() == MailboxActionView::Sleep(
                (wait - elapsed) as nat,
            )
            &&& elapsed < wait ==> after.after(MailboxEventView::Slept).action() == turn.action()
            &&& elapsed >= wait ==> after.stage == TurnStageView::Finished(
                Err(
                    ErrorView::Transport(
                        "await timed out after "@ + decimal(wait / 1_000_000)
                            + "ms without a correlated reply to "@ + quoted(turn.request_id),
                    ),
                ),
            )
        }),
{
}

/// What the host is asked to do: to deliver to the peer's inbox first, then to look in the
/// outbox for the reply to this request, and nothing once the turn is finished.
pub proof fn law_mailbox_actions(turn: MailboxTurnView)
    ensures
        turn.stage is Delivering ==> turn.action() == (MailboxActionView::Deliver {
            inbox: turn.mailbox.inbox,
        }),
        turn.stage is Delivering ==> turn.after(MailboxEventView::Delivered).action() == (
        MailboxActionView::Claim { outbox: turn.mailbox.outbox, message_id: turn.request_id }),
        turn.stage is Finished <==> turn.action() is Nothing,
{
}

/// An event that is no outcome of the current action changes nothing, and no event changes
/// the mailbox or the request.
pub proof fn law_stray_mailbox_event(turn: MailboxTurnView, event: MailboxEventView)
    ensures
        ({
            let answers = match turn.action() {
                MailboxActionView::Deliver { .. } => event is Delivered || event is Failed,
                MailboxActionView::Claim { .. } => event is Claimed || event is Absent
                    || event is Failed,
                MailboxActionView::Sleep(_) => event is Slept,
                MailboxActionView::Nothing => false,
            };
            !answers ==> turn.after(event) == turn
        }),
        turn.after(event).mailbox == turn.mailbox,
        turn.after(event).request_id == turn.request_id,
{
}

/// An event is told by all that it holds.
pub proof fn law_mailbox_event_by_its_content(
    err: BatonError,
    reply: MessageEnvelope,
    elapsed: Span,
)
    ensures
        MailboxEvent::Delivered@ == MailboxEventView::Delivered,
        MailboxEvent::Failed(err)@ == MailboxEventView::Failed(err@),
        MailboxEvent::Claimed(reply)@ == MailboxEventView::Claimed(reply@),
        (MailboxEvent::Absent { elapsed })@ == (MailboxEventView::Absent { elapsed: elapsed@ }),
        MailboxEvent::Slept@ == MailboxEventView::Slept,
{
}

/// An action is told by all that it holds.
pub proof fn law_mailbox_action_by_its_content(
    inbox: String,
    outbox: String,
    message_id: String,
    length: Span,
)
    ensures
        (MailboxAction::Deliver { inbox })@ == (MailboxActionView::Deliver { inbox: inbox@ }),
        (MailboxAction::Claim { outbox, message_id })@ == (MailboxActionView::Claim {
            outbox: outbox@,
            message_id: message_id@,
        }),
        MailboxAction::Sleep(length)@ == MailboxActionView::Sleep(length@),
        MailboxAction::Nothing@ == MailboxActionView::Nothing,
{
}

} // verus!
