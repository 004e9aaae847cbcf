//! One run of a child process, from its start to what it hands back.
//!
//! The host starts the process, writes to it, waits for it and kills it; what it
//! does next, and what the run amounts to, is decided here. A [`ChildRun`] names
//! the next action, and the host hands back what came of it as a [`ChildEvent`],
//! until the run is finished.

use vstd::prelude::*;

use crate::bytes::text_of;
use crate::capture::stdout_text;
use crate::error::{BatonError, ErrorView};
use crate::outside::path_debug;
use crate::span::{span_text, Span};
use crate::text::{blank, is_blank, plain, quoted, trim, trimmed};
use crate::windows::{windows_command_tail, windows_line};

verus! {

broadcast use vstd::string::group_string_axioms;

/// How long standard error is waited for once the child is gone.
pub const STDERR_WAIT_SECS: u64 = 5;

/// What a child process is started with.
#[derive(Debug)]
pub struct ChildSpec {
    pub program: String,
    pub args: Vec<String>,
    /// Variables that are set over the inherited environment, in order.
    pub envs: Vec<(String, String)>,
    /// Variables that are taken out, after all others are set.
    pub env_removals: Vec<String>,
    pub cwd: Option<String>,
    /// What is written to the child's standard input.
    pub payload: Vec<u8>,
    /// How long the child may keep its standard output open, first while it takes in its
    /// input and then behind it. `None` sets no limit.
    pub read_timeout: Option<Span>,
}

#[verifier::ext_equal]
pub struct ChildSpecView {
    pub program: Seq<char>,
    pub args: Seq<Seq<char>>,
    pub envs: Seq<(Seq<char>, Seq<char>)>,
    pub env_removals: Seq<Seq<char>>,
    pub cwd: Option<Seq<char>>,
    pub payload: Seq<u8>,
    pub read_timeout: Option<nat>,
}

impl View for ChildSpec {
    type V = ChildSpecView;

    open spec fn view(&self) -> ChildSpecView {
        ChildSpecView {
            program: self.program@,
            args: self.args.deep_view(),
            envs: self.envs.deep_view(),
            env_removals: self.env_removals.deep_view(),
            cwd: self.cwd.deep_view(),
            payload: self.payload@,
            read_timeout: self.read_timeout.deep_view(),
        }
    }
}

impl ChildSpec {
    /// The argument that makes `cmd /D /S /C` start this child on Windows.
    pub fn windows_tail(&self) -> (tail: String)
        ensures
            tail@ == seq!['"'] + windows_line(seq![self@.program] + self@.args) + seq!['"'],
    {
        windows_command_tail(self.program.as_str(), &self.args)
    }
}

/// The environment after `sets` were made in order over `inherited`.
pub open spec fn env_with(
    inherited: Map<Seq<char>, Seq<char>>,
    sets: Seq<(Seq<char>, Seq<char>)>,
) -> Map<Seq<char>, Seq<char>>
    decreases sets.len(),
{
    if sets.len() == 0 {
        inherited
    } else {
        env_with(inherited, sets.drop_last()).insert(sets.last().0, sets.last().1)
    }
}

impl ChildSpecView {
    /// The environment that the child runs in, where `inherited` is the host's own.
    pub open spec fn environment(self, inherited: Map<Seq<char>, Seq<char>>) -> Map<
        Seq<char>,
        Seq<char>,
    > {
        env_with(inherited, self.envs).remove_keys(self.env_removals.to_set())
    }
}

/// What went wrong with a child that was started.
#[derive(Debug)]
pub enum Fault {
    /// Its standard input could not be written.
    Write(String),
    /// Its standard output could not be read.
    Read(String),
    /// It kept its standard output open past this limit, be it that it did not take in its
    /// input or that it did not end its output.
    TimedOut(Span),
    /// Its standard output was lost.
    ReaderLost,
    /// It exited with this status, which is not success.
    Exit(String),
}

pub enum FaultView {
    Write(Seq<char>),
    Read(Seq<char>),
    TimedOut(nat),
    ReaderLost,
    Exit(Seq<char>),
}

impl View for Fault {
    type V = FaultView;

    open spec fn view(&self) -> FaultView {
        match self {
            Fault::Write(err) => FaultView::Write(err@),
            Fault::Read(err) => FaultView::Read(err@),
            Fault::TimedOut(limit) => FaultView::TimedOut(limit@),
            Fault::ReaderLost => FaultView::ReaderLost,
            Fault::Exit(status) => FaultView::Exit(status@),
        }
    }
}

/// What a failure's description adds for the child's standard error.
pub open spec fn stderr_detail(stderr: Seq<char>) -> Seq<char> {
    if blank(stderr) {
        Seq::empty()
    } else {
        ": "@ + trimmed(stderr)
    }
}

impl FaultView {
    /// The failure that the fault is reported as, with the child's standard error
    /// folded in.
    pub open spec fn error(self, stderr: Seq<char>) -> ErrorView {
        let detail = stderr_detail(stderr);
        match self {
            FaultView::Write(err) => ErrorView::Io(
                "could not write to child stdin: "@ + err + detail,
            ),
            FaultView::Read(err) => ErrorView::Io("could not read child stdout: "@ + err + detail),
            FaultView::TimedOut(limit) => ErrorView::Transport(
                "child process exceeded the "@ + span_text(limit) + " read timeout"@ + detail,
            ),
            FaultView::ReaderLost => ErrorView::Transport(
                "child process stdout reader terminated unexpectedly"@ + detail,
            ),
            FaultView::Exit(status) => ErrorView::Transport(
                "child process exited with "@ + status + detail,
            ),
        }
    }
}

fn stderr_suffix(stderr: &str) -> (detail: String)
    ensures
        detail@ == stderr_detail(stderr@),
{
    if is_blank(stderr) {
        String::new()
    } else {
        ": ".to_owned().concat(trim(stderr).as_str())
    }
}

/// The failure of a child that kept its standard output open past `limit`, be it that it
/// did not take in its input or that it did not end its output.
pub fn timeout_failure(limit: &str, stderr: &str) -> (err: BatonError)
    ensures
        err@ == ErrorView::Transport(
            "child process exceeded the "@ + limit@ + " read timeout"@ + stderr_detail(stderr@),
        ),
{
    let mut message = "child process exceeded the ".to_owned();
    message.append(limit);
    message.append(" read timeout");
    message.append(stderr_suffix(stderr).as_str());
    BatonError::Transport(message)
}

impl Fault {
    fn into_error(self, stderr: &str) -> (err: BatonError)
        ensures
            err@ == self@.error(stderr@),
    {
        let detail = stderr_suffix(stderr);
        match self {
            Fault::Write(err) => BatonError::Io(
                "could not write to child stdin: ".to_owned().concat(err.as_str()).concat(
                    detail.as_str(),
                ),
            ),
            Fault::Read(err) => BatonError::Io(
                "could not read child stdout: ".to_owned().concat(err.as_str()).concat(
                    detail.as_str(),
                ),
            ),
            Fault::TimedOut(limit) => timeout_failure(limit.to_text().as_str(), stderr),
            Fault::ReaderLost => BatonError::Transport(
                "child process stdout reader terminated unexpectedly".to_owned().concat(
                    detail.as_str(),
                ),
            ),
            Fault::Exit(status) => BatonError::Transport(
                "child process exited with ".to_owned().concat(status.as_str()).concat(
                    detail.as_str(),
                ),
            ),
        }
    }
}

/// What a run hands back: standard output and standard error of a child that
/// exited successfully, or the failure.
pub type Captured = Result<(String, String), BatonError>;

pub type CapturedView = Result<(Seq<char>, Seq<char>), ErrorView>;

pub open spec fn captured_view(captured: Captured) -> CapturedView {
    match captured {
        Ok((stdout, stderr)) => Ok((stdout@, stderr@)),
        Err(err) => Err(err@),
    }
}

/// How far a run has come.
#[derive(Debug)]
enum Stage {
    /// The child is to be started.
    Start,
    /// The child runs and its input is to be written.
    Writing,
    /// The input is written and the output is waited for.
    Draining,
    /// The output is complete and the rest of the input is still being written.
    Feeding { stdout: String },
    /// The output is complete and the child is to be waited for.
    Exiting { stdout: String },
    /// The child is to be killed and waited for.
    Stopping { fault: Fault },
    /// The child exited successfully; its standard error is to be collected.
    Succeeded { stdout: String },
    /// The child failed and is gone; its standard error is to be collected.
    Failed { fault: Fault },
    Finished { captured: Captured },
}

pub enum StageView {
    Start,
    Writing,
    Draining,
    Feeding { stdout: Seq<char> },
    Exiting { stdout: Seq<char> },
    Stopping { fault: FaultView },
    Succeeded { stdout: Seq<char> },
    Failed { fault: FaultView },
    Finished { captured: CapturedView },
}

impl View for Stage {
    type V = StageView;

    closed spec fn view(&self) -> StageView {
        match self {
            Stage::Start => StageView::Start,
            Stage::Writing => StageView::Writing,
            Stage::Draining => StageView::Draining,
            Stage::Feeding { stdout } => StageView::Feeding { stdout: stdout@ },
            Stage::Exiting { stdout } => StageView::Exiting { stdout: stdout@ },
            Stage::Stopping { fault } => StageView::Stopping { fault: fault@ },
            Stage::Succeeded { stdout } => StageView::Succeeded { stdout: stdout@ },
            Stage::Failed { fault } => StageView::Failed { fault: fault@ },
            Stage::Finished { captured } => StageView::Finished {
                captured: captured_view(*captured),
            },
        }
    }
}

/// What the host is to do next.
#[derive(Debug)]
pub enum ChildAction {
    /// Start the child, and start to read its output and standard error.
    Spawn,
    /// Write the payload and close the child's input. The wait for that ends when the
    /// child's output is complete, and after this limit where its output is still open
    /// then; the writing itself goes on.
    WritePayload(Option<Span>),
    /// Wait until the rest of the payload is written, however long that takes.
    FinishPayload,
    /// Wait until the child's output is complete, for no longer than this.
    AwaitStdout(Option<Span>),
    /// Wait for the child to exit.
    Reap,
    /// Kill the child and wait for it.
    KillAndReap,
    /// Collect standard error, waiting for no longer than this; what does not come
    /// counts as empty.
    CollectStderr(Span),
    /// Nothing: the run is finished.
    Nothing,
}

pub enum ChildActionView {
    Spawn,
    WritePayload(Option<nat>),
    FinishPayload,
    AwaitStdout(Option<nat>),
    Reap,
    KillAndReap,
    CollectStderr(nat),
    Nothing,
}

impl View for ChildAction {
    type V = ChildActionView;

    open spec fn view(&self) -> ChildActionView {
        match self {
            ChildAction::Spawn => ChildActionView::Spawn,
            ChildAction::WritePayload(limit) => ChildActionView::WritePayload(limit.deep_view()),
            ChildAction::FinishPayload => ChildActionView::FinishPayload,
            ChildAction::AwaitStdout(limit) => ChildActionView::AwaitStdout(limit.deep_view()),
            ChildAction::Reap => ChildActionView::Reap,
            ChildAction::KillAndReap => ChildActionView::KillAndReap,
            ChildAction::CollectStderr(limit) => ChildActionView::CollectStderr(limit@),
            ChildAction::Nothing => ChildActionView::Nothing,
        }
    }
}

/// What came of an action.
#[derive(Debug)]
pub enum ChildEvent {
    Spawned,
    SpawnFailed(String),
    PayloadWritten,
    WriteFailed(String),
    /// The output is complete: these bytes.
    StdoutClosed(Vec<u8>),
    /// The output could not be read. This is told once the payload is written.
    ReadFailed(String),
    /// The limit of the current action has passed and the output is still open.
    TimedOut,
    /// The reader of the output is gone. This is told once the payload is written.
    ReaderLost,
    Exited { success: bool, status: String },
    ReapFailed(String),
    Killed,
    StderrCollected(String),
}

pub enum ChildEventView {
    Spawned,
    SpawnFailed(Seq<char>),
    PayloadWritten,
    WriteFailed(Seq<char>),
    StdoutClosed(Seq<u8>),
    ReadFailed(Seq<char>),
    TimedOut,
    ReaderLost,
    Exited { success: bool, status: Seq<char> },
    ReapFailed(Seq<char>),
    Killed,
    StderrCollected(Seq<char>),
}

impl View for ChildEvent {
    type V = ChildEventView;

    open spec fn view(&self) -> ChildEventView {
        match self {
            ChildEvent::Spawned => ChildEventView::Spawned,
            ChildEvent::SpawnFailed(err) => ChildEventView::SpawnFailed(err@),
            ChildEvent::PayloadWritten => ChildEventView::PayloadWritten,
            ChildEvent::WriteFailed(err) => ChildEventView::WriteFailed(err@),
            ChildEvent::StdoutClosed(bytes) => ChildEventView::StdoutClosed(bytes@),
            ChildEvent::ReadFailed(err) => ChildEventView::ReadFailed(err@),
            ChildEvent::TimedOut => ChildEventView::TimedOut,
            ChildEvent::ReaderLost => ChildEventView::ReaderLost,
            ChildEvent::Exited { success, status } => ChildEventView::Exited {
                success: *success,
                status: status@,
            },
            ChildEvent::ReapFailed(err) => ChildEventView::ReapFailed(err@),
            ChildEvent::Killed => ChildEventView::Killed,
            ChildEvent::StderrCollected(text) => ChildEventView::StderrCollected(text@),
        }
    }
}

/// A run by its values.
pub struct ChildRunView {
    /// The program as it is shown in a failure's description.
    pub shown: Seq<char>,
    pub read_timeout: Option<nat>,
    pub stage: StageView,
}

/// The run of `spec` before anything was done, with the program shown as `shown`.
pub open spec fn run_start(spec: ChildSpecView, shown: Seq<char>) -> ChildRunView {
    ChildRunView {
        shown,
        read_timeout: spec.read_timeout,
        stage: StageView::Start,
    }
}

impl ChildRunView {
    /// What the host is to do at this point of the run.
    pub open spec fn action(self) -> ChildActionView {
        match self.stage {
            StageView::Start => ChildActionView::Spawn,
            StageView::Writing => ChildActionView::WritePayload(self.read_timeout),
            StageView::Draining => ChildActionView::AwaitStdout(self.read_timeout),
            StageView::Feeding { .. } => ChildActionView::FinishPayload,
            StageView::Exiting { .. } => ChildActionView::Reap,
            StageView::Stopping { .. } => ChildActionView::KillAndReap,
            StageView::Succeeded { .. } | StageView::Failed { .. } => ChildActionView::CollectStderr(
                5_000_000_000,
            ),
            StageView::Finished { .. } => ChildActionView::Nothing,
        }
    }

    /// The stage after `event`. An event that does not answer the current action
    /// leaves the stage as it is.
    pub open spec fn stage_after(self, event: ChildEventView) -> StageView {
        match (self.stage, event) {
            (StageView::Start, ChildEventView::Spawned) => StageView::Writing,
            (StageView::Start, ChildEventView::SpawnFailed(err)) => StageView::Finished {
                captured: Err(
                    ErrorView::Io(
                        "could not spawn child process "@ + self.shown + ": "@ + err,
                    ),
                ),
            },
            (StageView::Writing, ChildEventView::PayloadWritten) => StageView::Draining,
            (StageView::Writing, ChildEventView::WriteFailed(err)) => StageView::Stopping {
                fault: FaultView::Write(err),
            },
            (StageView::Writing, ChildEventView::TimedOut) => match self.read_timeout {
                Some(limit) => StageView::Stopping { fault: FaultView::TimedOut(limit) },
                None => StageView::Writing,
            },
            (StageView::Writing, ChildEventView::StdoutClosed(bytes)) => StageView::Feeding {
                stdout: text_of(bytes),
            },
            (StageView::Feeding { stdout }, ChildEventView::PayloadWritten) => StageView::Exiting {
                stdout,
            },
            (StageView::Feeding { .. }, ChildEventView::WriteFailed(err)) => StageView::Stopping {
                fault: FaultView::Write(err),
            },
            (StageView::Draining, ChildEventView::StdoutClosed(bytes)) => StageView::Exiting {
                stdout: text_of(bytes),
            },
            (StageView::Draining, ChildEventView::ReadFailed(err)) => StageView::Stopping {
                fault: FaultView::Read(err),
            },
            (StageView::Draining, ChildEventView::TimedOut) => match self.read_timeout {
                Some(limit) => StageView::Stopping { fault: FaultView::TimedOut(limit) },
                None => StageView::Draining,
            },
            (StageView::Draining, ChildEventView::ReaderLost) => StageView::Stopping {
                fault: FaultView::ReaderLost,
            },
            (
                StageView::Exiting { stdout },
                ChildEventView::Exited { success, status },
            ) => if success {
                StageView::Succeeded { stdout }
            } else {
                StageView::Failed { fault: FaultView::Exit(status) }
            },
            (StageView::Exiting { .. }, ChildEventView::ReapFailed(err)) => StageView::Finished {
                captured: Err(ErrorView::Io("could not reap child process: "@ + err)),
            },
            (StageView::Stopping { fault }, ChildEventView::Killed) => StageView::Failed { fault },
            (
                StageView::Succeeded { stdout },
                ChildEventView::StderrCollected(stderr),
            ) => StageView::Finished { captured: Ok((stdout, stderr)) },
            (
                StageView::Failed { fault },
                ChildEventView::StderrCollected(stderr),
            ) => StageView::Finished { captured: Err(fault.error(stderr)) },
            _ => self.stage,
        }
    }

    /// The run after `event`.
    pub open spec fn after(self, event: ChildEventView) -> ChildRunView {
        ChildRunView { stage: self.stage_after(event), ..self }
    }
}

/// One run of a child process.
#[derive(Debug)]
pub struct ChildRun {
    shown: String,
    read_timeout: Option<Span>,
    stage: Stage,
}

impl View for ChildRun {
    type V = ChildRunView;

    closed spec fn view(&self) -> ChildRunView {
        ChildRunView {
            shown: self.shown@,
            read_timeout: self.read_timeout.deep_view(),
            stage: self.stage@,
        }
    }
}

impl ChildRun {
    /// A run of `spec` in which nothing was done yet. The program is shown in the way
    /// that the system writes its paths.
    pub fn new(spec: &ChildSpec) -> (run: ChildRun)
        ensures
            run@ == run_start(spec@, run@.shown),
            plain(spec@.program) ==> run@.shown == quoted(spec@.program),
    {
        ChildRun::shown_as(spec, path_debug(spec.program.as_str()))
    }

    /// A run of `spec` in which nothing was done yet, with the program shown as `shown`.
    pub fn shown_as(spec: &ChildSpec, shown: String) -> (run: ChildRun)
        ensures
            run@ == run_start(spec@, shown@),
    {
        ChildRun { shown, read_timeout: spec.read_timeout, stage: Stage::Start }
    }

    /// What the host is to do next.
    pub fn action(&self) -> (action: ChildAction)
        ensures
            action@ == self@.action(),
    {
        match &self.stage {
            Stage::Start => ChildAction::Spawn,
            Stage::Writing => ChildAction::WritePayload(self.read_timeout),
            Stage::Draining => ChildAction::AwaitStdout(self.read_timeout),
            Stage::Feeding { .. } => ChildAction::FinishPayload,
            Stage::Exiting { .. } => ChildAction::Reap,
            Stage::Stopping { .. } => ChildAction::KillAndReap,
            Stage::Succeeded { .. } => ChildAction::CollectStderr(Span::from_secs(STDERR_WAIT_SECS)),
            Stage::Failed { .. } => ChildAction::CollectStderr(Span::from_secs(STDERR_WAIT_SECS)),
            Stage::Finished { .. } => ChildAction::Nothing,
        }
    }

    /// The run after `event` came of the current action.
    pub fn step(self, event: ChildEvent) -> (run: ChildRun)
        ensures
            run@ == self@.after(event@),
    {
        let ChildRun { shown, read_timeout, stage } = self;
        let stage = match (stage, event) {
            (Stage::Start, ChildEvent::Spawned) => Stage::Writing,
            (Stage::Start, ChildEvent::SpawnFailed(err)) => {
                let mut message = "could not spawn child process ".to_owned();
                message.append(shown.as_str());
                message.append(": ");
                message.append(err.as_str());
                Stage::Finished { captured: Err(BatonError::Io(message)) }
            },
            (Stage::Writing, ChildEvent::PayloadWritten) => Stage::Draining,
            (Stage::Writing, ChildEvent::WriteFailed(err)) => Stage::Stopping {
                fault: Fault::Write(err),
            },
            (Stage::Writing, ChildEvent::TimedOut) => match read_timeout {
                Some(limit) => Stage::Stopping { fault: Fault::TimedOut(limit) },
                None => Stage::Writing,
            },
            (Stage::Writing, ChildEvent::StdoutClosed(bytes)) => Stage::Feeding {
                stdout: stdout_text(bytes.as_slice()),
            },
            (Stage::Feeding { stdout }, ChildEvent::PayloadWritten) => Stage::Exiting { stdout },
            (Stage::Feeding { .. }, ChildEvent::WriteFailed(err)) => Stage::Stopping {
                fault: Fault::Write(err),
            },
            (Stage::Draining, ChildEvent::StdoutClosed(bytes)) => Stage::Exiting {
                stdout: stdout_text(bytes.as_slice()),
            },
            (Stage::Draining, ChildEvent::ReadFailed(err)) => Stage::Stopping {
                fault: Fault::Read(err),
            },
            (Stage::Draining, ChildEvent::TimedOut) => match read_timeout {
                Some(limit) => Stage::Stopping { fault: Fault::TimedOut(limit) },
                None => Stage::Draining,
            },
            (Stage::Draining, ChildEvent::ReaderLost) => Stage::Stopping {
                fault: Fault::ReaderLost,
            },
            (Stage::Exiting { stdout }, ChildEvent::Exited { success, status }) => if success {
                Stage::Succeeded { stdout }
            } else {
                Stage::Failed { fault: Fault::Exit(status) }
            },
            (Stage::Exiting { .. }, ChildEvent::ReapFailed(err)) => Stage::Finished {
                captured: Err(
                    BatonError::Io("could not reap child process: ".to_owned().concat(err.as_str())),
                ),
            },
            (Stage::Stopping { fault }, ChildEvent::Killed) => Stage::Failed { fault },
            (Stage::Succeeded { stdout }, ChildEvent::StderrCollected(stderr)) => Stage::Finished {
                captured: Ok((stdout, stderr)),
            },
            (Stage::Failed { fault }, ChildEvent::StderrCollected(stderr)) => Stage::Finished {
                captured: Err(fault.into_error(stderr.as_str())),
            },
            (stage, _) => stage,
        };
        ChildRun { shown, read_timeout, stage }
    }

    /// What the run hands back, once it is finished.
    pub fn into_captured(self) -> (captured: Option<Captured>)
        ensures
            match captured {
                Some(captured) => self@.stage == (StageView::Finished {
                    captured: captured_view(captured),
                }),
                None => !(self@.stage is Finished),
            },
    {
        match self.stage {
            Stage::Finished { captured } => Some(captured),
            _ => None,
        }
    }
}

} // verus!
