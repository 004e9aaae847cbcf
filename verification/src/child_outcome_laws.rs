//! What every run of a child process amounts to, and in which words.

use vstd::prelude::*;

use crate::bytes::text_of;
use crate::child::{
    captured_view, env_with, run_start, ChildAction, ChildActionView, ChildEvent, ChildEventView,
    ChildRunView, ChildSpec, ChildSpecView, StageView,
};
use crate::child_laws::lemma_last_set_wins;
use crate::error::{BatonError, ErrorView};
use crate::span::{span_text, Span};
use crate::text::{blank, is_white};
use crate::text_laws::{bare_ends, law_trimmed_is_the_core};

verus! {

/// The run hands back a failure with this description.
pub open spec fn failed_with(run: ChildRunView, err: ErrorView) -> bool {
    run.stage == (StageView::Finished { captured: Err(err) })
}

/// A child is started, fed its payload within the limit, its output waited for within the
/// limit, and waited for itself; what it wrote to its standard error is collected for no
/// longer than five seconds. A child that exits successfully gives the text of its output
/// and its standard error.
pub proof fn law_course_of_a_run(
    spec: ChildSpecView,
    shown: Seq<char>,
    bytes: Seq<u8>,
    status: Seq<char>,
    stderr: Seq<char>,
)
    ensures
        ({
            let start = run_start(spec, shown);
            let started = start.after(ChildEventView::Spawned);
            let fed = started.after(ChildEventView::PayloadWritten);
            let closed = fed.after(ChildEventView::StdoutClosed(bytes));
            let exited = closed.after(ChildEventView::Exited { success: true, status });
            let done = exited.after(ChildEventView::StderrCollected(stderr));
            &&& start.action() == ChildActionView::Spawn
            &&& started.action() == ChildActionView::WritePayload(spec.read_timeout)
            &&& fed.action() == ChildActionView::AwaitStdout(spec.read_timeout)
            &&& closed.action() == ChildActionView::Reap
            &&& exited.action() == ChildActionView::CollectStderr(5_000_000_000)
            &&& done.action() == ChildActionView::Nothing
            &&& done.stage == (StageView::Finished { captured: Ok((text_of(bytes), stderr)) })
            &&& started.after(ChildEventView::StdoutClosed(bytes)).action()
                == ChildActionView::FinishPayload
            &&& started.after(ChildEventView::StdoutClosed(bytes)).after(
                ChildEventView::PayloadWritten,
            ) == closed
        }),
{
}

/// A child that cannot be started, or not waited for, ends the run at once with a failure
/// that says so.
pub proof fn law_run_ends_at_once(
    spec: ChildSpecView,
    shown: Seq<char>,
    bytes: Seq<u8>,
    err: Seq<char>,
)
    ensures
        failed_with(
            run_start(spec, shown).after(ChildEventView::SpawnFailed(err)),
            ErrorView::Io("could not spawn child process "@ + shown + ": "@ + err),
        ),
        failed_with(
            run_start(spec, shown).after(ChildEventView::Spawned).after(
                ChildEventView::PayloadWritten,
            ).after(ChildEventView::StdoutClosed(bytes)).after(ChildEventView::ReapFailed(err)),
            ErrorView::Io("could not reap child process: "@ + err),
        ),
{
}

/// A run that stops its child: it asks to kill and wait for it, then collects standard
/// error, and then fails with `words`, an input or output failure where `io` holds, and
/// with the child's standard error behind them, trimmed, where there is any.
pub open spec fn stops_with(
    run: ChildRunView,
    io: bool,
    words: Seq<char>,
    stderr: Seq<char>,
    detail: Seq<char>,
) -> bool {
    let killed = run.after(ChildEventView::Killed);
    &&& run.action() == ChildActionView::KillAndReap
    &&& killed.action() == ChildActionView::CollectStderr(5_000_000_000)
    &&& failed_with(
        killed.after(ChildEventView::StderrCollected(stderr)),
        if io {
            ErrorView::Io(words + detail)
        } else {
            ErrorView::Transport(words + detail)
        },
    )
}

/// Whatever goes wrong with a running child, it is killed and waited for, and the failure
/// says what went wrong and, where the child wrote anything to its standard error, what.
pub proof fn law_faults_of_a_run(
    spec: ChildSpecView,
    shown: Seq<char>,
    bytes: Seq<u8>,
    err: Seq<char>,
    status: Seq<char>,
    limit: nat,
    a: Seq<char>,
    core: Seq<char>,
    b: Seq<char>,
)
    requires
        blank(a),
        blank(b),
        bare_ends(core),
    ensures
        ({
            let started = run_start(spec, shown).after(ChildEventView::Spawned);
            let fed = started.after(ChildEventView::PayloadWritten);
            let early = started.after(ChildEventView::StdoutClosed(bytes));
            let closed = fed.after(ChildEventView::StdoutClosed(bytes));
            let stderr = a + core + b;
            let detail = if core.len() == 0 {
                Seq::empty()
            } else {
                ": "@ + core
            };
            let unwritten = "could not write to child stdin: "@ + err;
            let late = "child process exceeded the "@ + span_text(limit) + " read timeout"@;
            let exit = closed.after(ChildEventView::Exited { success: false, status });
            &&& stops_with(
                started.after(ChildEventView::WriteFailed(err)),
                true,
                unwritten,
                stderr,
                detail,
            )
            &&& stops_with(
                early.after(ChildEventView::WriteFailed(err)),
                true,
                unwritten,
                stderr,
                detail,
            )
            &&& stops_with(
                fed.after(ChildEventView::ReadFailed(err)),
                true,
                "could not read child stdout: "@ + err,
                stderr,
                detail,
            )
            &&& stops_with(
                fed.after(ChildEventView::ReaderLost),
                false,
                "child process stdout reader terminated unexpectedly"@,
                stderr,
                detail,
            )
            &&& spec.read_timeout == Some(limit) ==> stops_with(
                started.after(ChildEventView::TimedOut),
                false,
                late,
                stderr,
                detail,
            ) && stops_with(fed.after(ChildEventView::TimedOut), false, late, stderr, detail)
            &&& exit.action() == ChildActionView::CollectStderr(5_000_000_000)
            &&& failed_with(
                exit.after(ChildEventView::StderrCollected(stderr)),
                ErrorView::Transport("child process exited with "@ + status + detail),
            )
        }),
{
    let stderr = a + core + b;
    law_trimmed_is_the_core(a, core, b);
    if core.len() == 0 {
        assert(stderr =~= a + b);
        assert forall|i: int| 0 <= i < stderr.len() implies is_white(#[trigger] stderr[i]) by {
            if i < a.len() {
                assert(stderr[i] == a[i]);
            } else {
                assert(stderr[i] == b[i - a.len()]);
            }
        }
    } else {
        assert(stderr[a.len() as int] == core[0]);
    }
}

/// An event that is no outcome of the current action changes nothing, and no event changes
/// the limit or how the program is shown.
pub proof fn law_stray_child_event(run: ChildRunView, event: ChildEventView)
    ensures
        ({
            let answers = match run.action() {
                ChildActionView::Spawn => event is Spawned || event is SpawnFailed,
                ChildActionView::WritePayload(limit) => event is PayloadWritten
                    || event is WriteFailed || event is StdoutClosed || (event is TimedOut
                    && limit is Some),
                ChildActionView::FinishPayload => event is PayloadWritten || event is WriteFailed,
                ChildActionView::AwaitStdout(limit) => event is StdoutClosed || event is ReadFailed
                    || event is ReaderLost || (event is TimedOut && limit is Some),
                ChildActionView::Reap => event is Exited || event is ReapFailed,
                ChildActionView::KillAndReap => event is Killed,
                ChildActionView::CollectStderr(_) => event is StderrCollected,
                ChildActionView::Nothing => false,
            };
            !answers ==> run.after(event) == run
        }),
        run.after(event).shown == run.shown,
        run.after(event).read_timeout == run.read_timeout,
        run.stage is Finished <==> run.action() is Nothing,
{
}

/// What a variable is in a child's environment: absent where it is taken out; else the last
/// value that is set for it; else what was inherited.
pub proof fn law_variable_of_a_child(
    spec: ChildSpecView,
    inherited: Map<Seq<char>, Seq<char>>,
    name: Seq<char>,
    at: int,
)
    ensures
        ({
            let seen = spec.environment(inherited);
            let unset = forall|i: int| 0 <= i < spec.envs.len() ==> (#[trigger] spec.envs[i]).0 != name;
            let last = 0 <= at < spec.envs.len() && spec.envs[at].0 == name && forall|i: int|
                at < i < spec.envs.len() ==> (#[trigger] spec.envs[i]).0 != name;
            if spec.env_removals.contains(name) {
                !seen.contains_key(name)
            } else {
                &&& last ==> seen.contains_key(name) && seen[name] == spec.envs[at].1
                &&& unset ==> (seen.contains_key(name) <==> inherited.contains_key(name))
                &&& unset && inherited.contains_key(name) ==> seen[name] == inherited[name]
            }
        }),
{
    let unset = forall|i: int| 0 <= i < spec.envs.len() ==> (#[trigger] spec.envs[i]).0 != name;
    let last = 0 <= at < spec.envs.len() && spec.envs[at].0 == name && forall|i: int|
        at < i < spec.envs.len() ==> (#[trigger] spec.envs[i]).0 != name;
    if !spec.env_removals.contains(name) {
        assert(!spec.env_removals.to_set().contains(name));
        if last {
            lemma_last_set_wins(inherited, spec.envs, at);
        }
        if unset {
            lemma_unset_is_inherited(inherited, spec.envs, name);
        }
    }
}

pub proof fn lemma_unset_is_inherited(
    inherited: Map<Seq<char>, Seq<char>>,
    sets: Seq<(Seq<char>, Seq<char>)>,
    name: Seq<char>,
)
    requires
        forall|i: int| 0 <= i < sets.len() ==> (#[trigger] sets[i]).0 != name,
    ensures
        env_with(inherited, sets).contains_key(name) <==> inherited.contains_key(name),
        inherited.contains_key(name) ==> env_with(inherited, sets)[name] == inherited[name],
    decreases sets.len(),
{
    if sets.len() > 0 {
        assert(sets[sets.len() - 1].0 != name);
        assert forall|i: int| 0 <= i < sets.drop_last().len() implies (
        #[trigger] sets.drop_last()[i]).0 != name by {
            assert(sets.drop_last()[i] == sets[i]);
        }
        lemma_unset_is_inherited(inherited, sets.drop_last(), name);
    }
}

/// What a child is started with is told field by field.
pub proof fn law_child_by_its_fields(spec: ChildSpec)
    ensures
        spec@.program == spec.program@,
        spec@.args.len() == spec.args.len(),
        forall|i: int| 0 <= i < spec.args.len() ==> #[trigger] spec@.args[i] == spec.args[i]@,
        spec@.envs.len() == spec.envs.len(),
        forall|i: int|
            0 <= i < spec.envs.len() ==> #[trigger] spec@.envs[i] == (
                spec.envs[i].0@,
                spec.envs[i].1@,
            ),
        spec@.env_removals.len() == spec.env_removals.len(),
        forall|i: int|
            0 <= i < spec.env_removals.len() ==> #[trigger] spec@.env_removals[i]
                == spec.env_removals[i]@,
        match spec.cwd {
            Some(cwd) => spec@.cwd == Some(cwd@),
            None => spec@.cwd is None,
        },
        spec@.payload == spec.payload@,
        match spec.read_timeout {
            Some(limit) => spec@.read_timeout == Some(limit@),
            None => spec@.read_timeout is None,
        },
{
}

/// What a run hands back is told by all that it holds.
pub proof fn law_captured_by_its_content(stdout: String, stderr: String, err: BatonError)
    ensures
        captured_view(Ok((stdout, stderr))) == Ok::<(Seq<char>, Seq<char>), ErrorView>(
            (stdout@, stderr@),
        ),
        captured_view(Err(err)) == Err::<(Seq<char>, Seq<char>), ErrorView>(err@),
{
}

/// An event is told by all that it holds.
pub proof fn law_child_event_by_its_content(text: String, bytes: Vec<u8>, success: bool)
    ensures
        ChildEvent::Spawned@ == ChildEventView::Spawned,
        ChildEvent::SpawnFailed(text)@ == ChildEventView::SpawnFailed(text@),
        ChildEvent::PayloadWritten@ == ChildEventView::PayloadWritten,
        ChildEvent::WriteFailed(text)@ == ChildEventView::WriteFailed(text@),
        ChildEvent::StdoutClosed(bytes)@ == ChildEventView::StdoutClosed(bytes@),
        ChildEvent::ReadFailed(text)@ == ChildEventView::ReadFailed(text@),
        ChildEvent::TimedOut@ == ChildEventView::TimedOut,
        ChildEvent::ReaderLost@ == ChildEventView::ReaderLost,
        (ChildEvent::Exited { success, status: text })@ == (ChildEventView::Exited {
            success,
            status: text@,
        }),
        ChildEvent::ReapFailed(text)@ == ChildEventView::ReapFailed(text@),
        ChildEvent::Killed@ == ChildEventView::Killed,
        ChildEvent::StderrCollected(text)@ == ChildEventView::StderrCollected(text@),
{
}

/// An action is told by all that it holds.
pub proof fn law_child_action_by_its_content(limit: Span)
    ensures
        ChildAction::Spawn@ == ChildActionView::Spawn,
        ChildAction::WritePayload(Some(limit))@ == ChildActionView::WritePayload(Some(limit@)),
        ChildAction::WritePayload(None)@ == ChildActionView::WritePayload(None),
        ChildAction::FinishPayload@ == ChildActionView::FinishPayload,
        ChildAction::AwaitStdout(Some(limit))@ == ChildActionView::AwaitStdout(Some(limit@)),
        ChildAction::AwaitStdout(None)@ == ChildActionView::AwaitStdout(None),
        ChildAction::Reap@ == ChildActionView::Reap,
        ChildAction::KillAndReap@ == ChildActionView::KillAndReap,
        ChildAction::CollectStderr(limit)@ == ChildActionView::CollectStderr(limit@),
        ChildAction::Nothing@ == ChildActionView::Nothing,
{
}

} // verus!
