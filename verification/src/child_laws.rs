//! What holds of every run of a child process.

use vstd::prelude::*;

use crate::bytes::text_of;
use crate::child::{
    env_with, run_start, ChildActionView, ChildEventView, ChildRunView, ChildSpecView, FaultView,
    StageView,
};

verus! {

/// A run after `events`, in order.
pub open spec fn run_after(run: ChildRunView, events: Seq<ChildEventView>) -> ChildRunView
    decreases events.len(),
{
    if events.len() == 0 {
        run
    } else {
        run_after(run, events.drop_last()).after(events.last())
    }
}

/// How many more events can advance a run at most.
pub open spec fn steps_left(stage: StageView) -> nat {
    match stage {
        StageView::Start => 5,
        StageView::Writing => 4,
        StageView::Draining => 3,
        StageView::Feeding { .. } => 3,
        StageView::Exiting { .. } => 2,
        StageView::Stopping { .. } => 2,
        StageView::Succeeded { .. } => 1,
        StageView::Failed { .. } => 1,
        StageView::Finished { .. } => 0,
    }
}

/// Every event either leaves a run where it is or brings it nearer to its end, which
/// is five such events away at most. A finished run stays as it is.
pub proof fn law_run_advances(run: ChildRunView, event: ChildEventView)
    ensures
        run.after(event) == run || steps_left(run.after(event).stage) < steps_left(run.stage),
        run.stage is Finished ==> run.after(event) == run,
        steps_left(run.stage) == 0 ==> run.stage is Finished,
{
}

/// Without a limit there is no timeout: no action has one, and the event changes nothing
/// at any point.
pub proof fn law_no_deadline_no_timeout(run: ChildRunView)
    requires
        run.read_timeout is None,
    ensures
        run.after(ChildEventView::TimedOut) == run,
        run.action() matches ChildActionView::WritePayload(limit) ==> limit is None,
        run.action() matches ChildActionView::AwaitStdout(limit) ==> limit is None,
{
}

/// A child that exits successfully hands back the text of its output and its
/// standard error.
pub proof fn law_clean_run(
    spec: ChildSpecView,
    shown: Seq<char>,
    bytes: Seq<u8>,
    status: Seq<char>,
    stderr: Seq<char>,
)
    ensures
        run_after(
            run_start(spec, shown),
            seq![
                ChildEventView::Spawned,
                ChildEventView::PayloadWritten,
                ChildEventView::StdoutClosed(bytes),
                ChildEventView::Exited { success: true, status },
                ChildEventView::StderrCollected(stderr),
            ],
        ).stage == (StageView::Finished { captured: Ok((text_of(bytes), stderr)) }),
{
    let e0 = ChildEventView::Spawned;
    let e1 = ChildEventView::PayloadWritten;
    let e2 = ChildEventView::StdoutClosed(bytes);
    let e3 = ChildEventView::Exited { success: true, status };
    let e4 = ChildEventView::StderrCollected(stderr);
    assert(seq![e0, e1, e2, e3, e4].drop_last() =~= seq![e0, e1, e2, e3]);
    assert(seq![e0, e1, e2, e3].drop_last() =~= seq![e0, e1, e2]);
    assert(seq![e0, e1, e2].drop_last() =~= seq![e0, e1]);
    assert(seq![e0, e1].drop_last() =~= seq![e0]);
    assert(seq![e0].drop_last() =~= Seq::<ChildEventView>::empty());
    reveal_with_fuel(run_after, 6);
}

/// Some event reported that the child exited successfully.
pub open spec fn exited_cleanly(events: Seq<ChildEventView>) -> bool {
    exists|i: int|
        0 <= i < events.len() && #[trigger] events[i] is Exited && events[i]->success
}

/// Some event reported that the output closed with the text `stdout`.
pub open spec fn closed_with(events: Seq<ChildEventView>, stdout: Seq<char>) -> bool {
    exists|i: int|
        0 <= i < events.len() && #[trigger] events[i] is StdoutClosed && text_of(
            events[i]->StdoutClosed_0,
        ) == stdout
}

/// The child was started.
pub open spec fn spawned(events: Seq<ChildEventView>) -> bool {
    exists|i: int| 0 <= i < events.len() && #[trigger] events[i] is Spawned
}

/// The host waited for the child, or tried to.
pub open spec fn reaped(events: Seq<ChildEventView>) -> bool {
    exists|i: int|
        0 <= i < events.len() && (#[trigger] events[i] is Killed || events[i] is Exited
            || events[i] is ReapFailed)
}

proof fn lemma_history_grows(events: Seq<ChildEventView>, stdout: Seq<char>)
    requires
        events.len() > 0,
    ensures
        exited_cleanly(events.drop_last()) ==> exited_cleanly(events),
        closed_with(events.drop_last(), stdout) ==> closed_with(events, stdout),
        spawned(events.drop_last()) ==> spawned(events),
        reaped(events.drop_last()) ==> reaped(events),
{
    let before = events.drop_last();
    assert(forall|i: int| 0 <= i < before.len() ==> #[trigger] before[i] == events[i]);
    if exited_cleanly(before) {
        let i = choose|i: int|
            0 <= i < before.len() && #[trigger] before[i] is Exited && before[i]->success;
        assert(events[i] is Exited);
    }
    if closed_with(before, stdout) {
        let i = choose|i: int|
            0 <= i < before.len() && #[trigger] before[i] is StdoutClosed && text_of(
                before[i]->StdoutClosed_0,
            ) == stdout;
        assert(events[i] is StdoutClosed);
    }
    if spawned(before) {
        let i = choose|i: int| 0 <= i < before.len() && #[trigger] before[i] is Spawned;
        assert(events[i] is Spawned);
    }
    if reaped(before) {
        let i = choose|i: int|
            0 <= i < before.len() && (#[trigger] before[i] is Killed || before[i] is Exited
                || before[i] is ReapFailed);
        assert(events[i] is Killed || events[i] is Exited || events[i] is ReapFailed);
    }
}

/// What the events must have reported for a run to stand at its stage.
pub open spec fn accounted(stage: StageView, events: Seq<ChildEventView>) -> bool {
    match stage {
        StageView::Start => true,
        StageView::Writing => spawned(events),
        StageView::Draining => spawned(events),
        StageView::Feeding { stdout } => spawned(events) && closed_with(events, stdout),
        StageView::Exiting { stdout } => spawned(events) && closed_with(events, stdout),
        StageView::Stopping { .. } => spawned(events),
        StageView::Succeeded { stdout } => spawned(events) && reaped(events) && exited_cleanly(
            events,
        ) && closed_with(events, stdout),
        StageView::Failed { .. } => spawned(events) && reaped(events),
        StageView::Finished { captured } => match captured {
            Ok((stdout, stderr)) => spawned(events) && reaped(events) && exited_cleanly(events)
                && closed_with(events, stdout) && events.contains(
                ChildEventView::StderrCollected(stderr),
            ),
            Err(_) => true,
        },
    }
}

proof fn lemma_accounted(spec: ChildSpecView, shown: Seq<char>, events: Seq<ChildEventView>)
    ensures
        accounted(run_after(run_start(spec, shown), events).stage, events),
    decreases events.len(),
{
    if events.len() > 0 {
        let before = events.drop_last();
        let run = run_after(run_start(spec, shown), before);
        let next = run.after(events.last());
        lemma_accounted(spec, shown, before);
        assert(events[events.len() - 1] == events.last());
        match next.stage {
            StageView::Feeding { stdout } => {
                lemma_history_grows(events, stdout);
            },
            StageView::Exiting { stdout } => {
                lemma_history_grows(events, stdout);
            },
            StageView::Succeeded { stdout } => {
                lemma_history_grows(events, stdout);
            },
            StageView::Finished { captured: Ok((stdout, stderr)) } => {
                lemma_history_grows(events, stdout);
                if run.stage is Finished {
                    let i = choose|i: int|
                        0 <= i < before.len() && before[i] == ChildEventView::StderrCollected(stderr);
                    assert(events[i] == ChildEventView::StderrCollected(stderr));
                }
            },
            _ => {
                lemma_history_grows(events, Seq::empty());
            },
        }
    }
}

/// A run hands back output only if its child was started, exited successfully and
/// was waited for; the output is what the child closed its output with, and the
/// standard error is what was collected.
pub proof fn law_ok_only_after_clean_exit(
    spec: ChildSpecView,
    shown: Seq<char>,
    events: Seq<ChildEventView>,
    stdout: Seq<char>,
    stderr: Seq<char>,
)
    requires
        run_after(run_start(spec, shown), events).stage == (StageView::Finished {
            captured: Ok((stdout, stderr)),
        }),
    ensures
        spawned(events),
        exited_cleanly(events),
        closed_with(events, stdout),
        events.contains(ChildEventView::StderrCollected(stderr)),
{
    lemma_accounted(spec, shown, events);
}

/// No report came that the child could not be started.
pub open spec fn start_never_failed(events: Seq<ChildEventView>) -> bool {
    forall|i: int| 0 <= i < events.len() ==> !(#[trigger] events[i] is SpawnFailed)
}

/// No child is left behind: unless it could not be started, a run collects standard
/// error and is finished only after the host has waited for the child, killing it
/// where it had to.
pub proof fn law_child_reaped(spec: ChildSpecView, shown: Seq<char>, events: Seq<ChildEventView>)
    requires
        start_never_failed(events),
        run_after(run_start(spec, shown), events).stage is Succeeded || run_after(
            run_start(spec, shown),
            events,
        ).stage is Failed || run_after(run_start(spec, shown), events).stage is Finished,
    ensures
        reaped(events),
    decreases events.len(),
{
    let before = events.drop_last();
    let stage = run_after(run_start(spec, shown), before).stage;
    assert(events[events.len() - 1] == events.last());
    if stage is Succeeded || stage is Failed || stage is Finished {
        assert forall|i: int| 0 <= i < before.len() implies !(#[trigger] before[i] is SpawnFailed) by {
            assert(before[i] == events[i]);
        }
        law_child_reaped(spec, shown, before);
        lemma_history_grows(events, Seq::empty());
    }
}

/// A child that keeps its output open past its limit is killed, and the failure names the
/// limit: whether it does not take in its input or does not end its output.
pub proof fn law_timeout_kills(run: ChildRunView, limit: nat, stderr: Seq<char>)
    requires
        run.stage is Writing || run.stage is Draining,
        run.read_timeout == Some(limit),
    ensures
        run.action() == ChildActionView::WritePayload(Some(limit)) || run.action()
            == ChildActionView::AwaitStdout(Some(limit)),
        run.after(ChildEventView::TimedOut).action() is KillAndReap,
        run.after(ChildEventView::TimedOut).after(ChildEventView::Killed).after(
            ChildEventView::StderrCollected(stderr),
        ).stage == (StageView::Finished {
            captured: Err(FaultView::TimedOut(limit).error(stderr)),
        }),
{
}

/// A child whose output is complete is past its limit's reach: however slowly it takes in
/// the rest of its input, it is waited for, and its run goes on as if the input had been
/// written first.
pub proof fn law_complete_output_is_not_timed(run: ChildRunView, bytes: Seq<u8>)
    requires
        run.stage is Writing,
    ensures
        ({
            let fed = run.after(ChildEventView::StdoutClosed(bytes));
            &&& fed.action() is FinishPayload
            &&& fed.after(ChildEventView::TimedOut) == fed
            &&& fed.after(ChildEventView::PayloadWritten) == run.after(
                ChildEventView::PayloadWritten,
            ).after(ChildEventView::StdoutClosed(bytes))
        }),
{
}

/// Whatever fails about a child that was started and stopped, the failure carries the
/// child's standard error.
pub proof fn law_failure_folds_stderr(run: ChildRunView, fault: FaultView, stderr: Seq<char>)
    requires
        run.stage == (StageView::Failed { fault }),
    ensures
        run.after(ChildEventView::StderrCollected(stderr)).stage == (StageView::Finished {
            captured: Err(fault.error(stderr)),
        }),
{
}

/// The last value that is set for a variable is the one it has.
pub proof fn lemma_last_set_wins(
    inherited: Map<Seq<char>, Seq<char>>,
    sets: Seq<(Seq<char>, Seq<char>)>,
    at: int,
)
    requires
        0 <= at < sets.len(),
        forall|j: int| at < j < sets.len() ==> (#[trigger] sets[j]).0 != sets[at].0,
    ensures
        env_with(inherited, sets).contains_key(sets[at].0),
        env_with(inherited, sets)[sets[at].0] == sets[at].1,
    decreases sets.len(),
{
    if at < sets.len() - 1 {
        let before = sets.drop_last();
        assert(sets[sets.len() - 1].0 != sets[at].0);
        assert forall|j: int| at < j < before.len() implies (#[trigger] before[j]).0 != before[at].0 by {
            assert(before[j] == sets[j]);
        }
        lemma_last_set_wins(inherited, before, at);
    }
}

/// A variable that is taken out is absent, whatever was inherited and whatever was
/// set.
pub proof fn law_removed_variable_absent(
    spec: ChildSpecView,
    inherited: Map<Seq<char>, Seq<char>>,
    name: Seq<char>,
)
    requires
        spec.env_removals.contains(name),
    ensures
        !spec.environment(inherited).contains_key(name),
{
}

} // verus!
