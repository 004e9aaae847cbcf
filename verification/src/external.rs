//! The participant that answers with one headless run of an agent's command line.

use vstd::prelude::*;
use vstd::utf8::encode_utf8;

use crate::child::{captured_view, Captured, CapturedView, ChildSpec, ChildSpecView};
use crate::error::{outcome_view, BatonError, ErrorView};
use crate::message::{
    correlated_reply, fresh_reply, seq_after, synthesize_error_response, EnvelopeView,
    MessageEnvelope, MessageKind, ResponseSeq,
};
use crate::message_laws::drawn;
use crate::output::OutputAdapter;
use crate::outside::{alphanumeric, char_is_alphanumeric};
use crate::span::Span;
use crate::text::{blank, copy_pairs, copy_texts, decimal, decimal_text, is_blank};

verus! {

broadcast use vstd::string::group_string_axioms;

/// What the agent gets on its standard input for a batch.
#[derive(Debug, Clone, Copy, PartialEq, Eq, Structural)]
pub enum AgentInputMode {
    /// The body of the one request. This is for batches of a single request.
    Body,
    /// One JSON object `{"batch":[...]}` with every request, in their order.
    BatchJson,
}

/// A participant that runs an agent's command line once for each turn, in one
/// working directory, and wraps what it prints into a reply.
///
/// A run that exits successfully with a result is answered with that result. Any
/// failure is delivered as an error. Neither nests a record: an agent's run is not a
/// single call to a provider.
#[derive(Debug)]
pub struct ExternalAgentParticipant {
    program: String,
    args: Vec<String>,
    envs: Vec<(String, String)>,
    cwd: String,
    output: OutputAdapter,
    read_timeout: Option<Span>,
    stderr_dir: Option<String>,
    inbox: Option<String>,
    outbox: Option<String>,
    role: Option<String>,
    input_mode: AgentInputMode,
}

#[verifier::ext_equal]
pub struct AgentView {
    pub program: Seq<char>,
    pub args: Seq<Seq<char>>,
    pub envs: Seq<(Seq<char>, Seq<char>)>,
    pub cwd: Seq<char>,
    pub output: OutputAdapter,
    pub read_timeout: Option<nat>,
    pub stderr_dir: Option<Seq<char>>,
    pub inbox: Option<Seq<char>>,
    pub outbox: Option<Seq<char>>,
    pub role: Option<Seq<char>>,
    pub input_mode: AgentInputMode,
}

impl View for ExternalAgentParticipant {
    type V = AgentView;

    closed spec fn view(&self) -> AgentView {
        AgentView {
            program: self.program@,
            args: self.args.deep_view(),
            envs: self.envs.deep_view(),
            cwd: self.cwd@,
            output: self.output,
            read_timeout: self.read_timeout.deep_view(),
            stderr_dir: self.stderr_dir.deep_view(),
            inbox: self.inbox.deep_view(),
            outbox: self.outbox.deep_view(),
            role: self.role.deep_view(),
            input_mode: self.input_mode,
        }
    }
}

/// The setting of one variable, where there is a value for it.
pub open spec fn setting(name: Seq<char>, value: Option<Seq<char>>) -> Seq<(Seq<char>, Seq<char>)> {
    match value {
        Some(value) => seq![(name, value)],
        None => Seq::empty(),
    }
}

/// The requests of a batch by their values.
pub open spec fn batch_view(requests: Seq<MessageEnvelope>) -> Seq<EnvelopeView> {
    requests.map_values(|request: MessageEnvelope| request@)
}

/// `parts` with a comma between each two.
pub open spec fn comma_joined(parts: Seq<Seq<char>>) -> Seq<char>
    decreases parts.len(),
{
    if parts.len() == 0 {
        Seq::empty()
    } else if parts.len() == 1 {
        parts[0]
    } else {
        comma_joined(parts.drop_last()) + ","@ + parts.last()
    }
}

/// The JSON object that holds the documents `encoded` as a batch.
pub open spec fn batch_json(encoded: Seq<Seq<char>>) -> Seq<char> {
    "{\"batch\":["@ + comma_joined(encoded) + "]}"@
}

/// The requests of a batch as JSON, each by itself, or why one could not be encoded.
pub type Encoded = Result<Vec<String>, String>;

pub type EncodedView = Result<Seq<Seq<char>>, Seq<char>>;

pub open spec fn encoded_view(encoded: Encoded) -> EncodedView {
    match encoded {
        Ok(documents) => Ok(documents.deep_view()),
        Err(problem) => Err(problem@),
    }
}

impl AgentView {
    /// The variables that describe `request` to the agent.
    pub open spec fn turn_vars(self, request: EnvelopeView) -> Seq<(Seq<char>, Seq<char>)> {
        seq![
            ("BATON_MESSAGE_ID"@, request.message_id),
            ("BATON_CONVERSATION_ID"@, request.conversation_id),
            ("BATON_FROM"@, request.from),
            ("BATON_TO"@, request.to),
            ("BATON_KIND"@, request.kind.wire()),
            (
                "BATON_IN_REPLY_TO"@,
                match request.in_reply_to {
                    Some(id) => id,
                    None => Seq::empty(),
                },
            ),
            ("BATON_TS_MS"@, decimal(request.ts_ms as nat)),
        ] + setting("BATON_INBOX"@, self.inbox) + setting("BATON_OUTBOX"@, self.outbox) + setting(
            "BATON_ROLE"@,
            self.role,
        )
    }

    /// The variables that describe a batch: those of its last request, and its size.
    pub open spec fn batch_vars(self, requests: Seq<EnvelopeView>) -> Seq<(Seq<char>, Seq<char>)> {
        self.turn_vars(requests.last()).push(("BATON_BATCH_SIZE"@, decimal(requests.len())))
    }

    /// The variables that the agent must not see.
    pub open spec fn hidden_vars(self) -> Seq<Seq<char>> {
        if self.role is None {
            seq!["BATON_ROLE"@]
        } else {
            Seq::empty()
        }
    }

    /// The child that is run with `vars` set and `payload` on its input.
    pub open spec fn child(
        self,
        vars: Seq<(Seq<char>, Seq<char>)>,
        payload: Seq<u8>,
    ) -> ChildSpecView {
        ChildSpecView {
            program: self.program,
            args: self.args,
            envs: self.envs + vars,
            env_removals: self.hidden_vars(),
            cwd: Some(self.cwd),
            payload,
            read_timeout: self.read_timeout,
        }
    }

    /// The child of one turn: it gets the request's body.
    pub open spec fn turn_child(self, request: EnvelopeView) -> ChildSpecView {
        self.child(self.turn_vars(request), encode_utf8(request.body))
    }

    /// What the agent gets on its input for a batch.
    pub open spec fn batch_input(self, requests: Seq<EnvelopeView>, encoded: EncodedView) -> Result<
        Seq<u8>,
        ErrorView,
    > {
        match self.input_mode {
            AgentInputMode::Body => Ok(encode_utf8(requests[0].body)),
            AgentInputMode::BatchJson => match encoded {
                Ok(documents) => Ok(encode_utf8(batch_json(documents))),
                Err(problem) => Err(
                    ErrorView::Decode("could not encode batch-json stdin: "@ + problem),
                ),
            },
        }
    }

    /// The child of a batch.
    pub open spec fn batch_child(self, requests: Seq<EnvelopeView>, encoded: EncodedView) -> Result<
        ChildSpecView,
        ErrorView,
    > {
        match self.batch_input(requests, encoded) {
            Ok(payload) => Ok(self.child(self.batch_vars(requests), payload)),
            Err(err) => Err(err),
        }
    }

    /// The result of a run.
    pub open spec fn run_body(self, captured: CapturedView) -> Result<Seq<char>, ErrorView> {
        match captured {
            Ok((stdout, _)) => self.output.body(stdout),
            Err(err) => Err(err),
        }
    }

    /// The reply to `request` after a run.
    pub open spec fn reply(
        self,
        request: EnvelopeView,
        captured: CapturedView,
        ts_ms: u64,
        n: u64,
    ) -> EnvelopeView {
        match self.run_body(captured) {
            Ok(body) => fresh_reply(request, MessageKind::Response, body, ts_ms, n),
            Err(err) => fresh_reply(request, MessageKind::Error, err.text(), ts_ms, n),
        }
    }

    /// What is kept of a successful run's standard error: nothing where it is blank
    /// or there is no directory for it.
    pub open spec fn stderr_record(self, message_id: Seq<char>, stderr: Seq<char>) -> Option<
        StderrRecordView,
    > {
        match self.stderr_dir {
            Some(dir) if !blank(stderr) => Some(
                StderrRecordView { dir, file_name: stderr_file_name(message_id), text: stderr },
            ),
            _ => None,
        }
    }

    /// What is kept of the standard error of a run for the message `message_id`.
    pub open spec fn run_record(self, message_id: Seq<char>, captured: CapturedView) -> Option<
        StderrRecordView,
    > {
        match captured {
            Ok((_, stderr)) => self.stderr_record(message_id, stderr),
            Err(_) => None,
        }
    }
}

/// A file that is to be written with an agent's standard error.
#[derive(Debug, Clone, PartialEq, Eq)]
pub struct StderrRecord {
    pub dir: String,
    pub file_name: String,
    pub text: String,
}

#[verifier::ext_equal]
pub struct StderrRecordView {
    pub dir: Seq<char>,
    pub file_name: Seq<char>,
    pub text: Seq<char>,
}

impl View for StderrRecord {
    type V = StderrRecordView;

    open spec fn view(&self) -> StderrRecordView {
        StderrRecordView { dir: self.dir@, file_name: self.file_name@, text: self.text@ }
    }
}

impl DeepView for StderrRecord {
    type V = StderrRecordView;

    open spec fn deep_view(&self) -> StderrRecordView {
        self@
    }
}

/// Whether a character of a message's identifier stays in a file's name: a letter, a
/// digit, a dash or an underscore.
pub open spec fn stays_in_name(c: char) -> bool {
    if (c as u32) < 128 {
        '0' <= c <= '9' || 'A' <= c <= 'Z' || 'a' <= c <= 'z' || c == '-' || c == '_'
    } else {
        alphanumeric(c)
    }
}

/// A message's identifier with an underscore for every character that does not stay.
pub open spec fn safe_name(id: Seq<char>) -> Seq<char> {
    id.map_values(
        |c: char|
            if stays_in_name(c) {
                c
            } else {
                '_'
            },
    )
}

/// The name of the file that holds the standard error of the run for `id`.
pub open spec fn stderr_file_name(id: Seq<char>) -> Seq<char> {
    safe_name(id) + ".stderr"@
}

fn safe_file_name(id: &str) -> (name: String)
    ensures
        name@ == stderr_file_name(id@),
{
    let mut name = String::new();
    assert(safe_name(id@).take(0) =~= Seq::<char>::empty());
    for c in iter: id.chars()
        invariant
            iter.seq() == id@,
            name@ == safe_name(id@).take(iter.index()),
    {
        let stays = char_is_alphanumeric(c) || c == '-' || c == '_';
        assert(stays == stays_in_name(c));
        name.push(
            if stays {
                c
            } else {
                '_'
            },
        );
        assert(name@ =~= safe_name(id@).take(iter.index() + 1));
    }
    assert(safe_name(id@).take(id@.len() as int) =~= safe_name(id@));
    name.append(".stderr");
    name
}

fn join_with_commas(parts: &Vec<String>) -> (joined: String)
    ensures
        joined@ == comma_joined(parts.deep_view()),
{
    let mut joined = String::new();
    let ghost all = parts.deep_view();
    let mut i: usize = 0;
    assert(all.take(0) =~= Seq::<Seq<char>>::empty());
    while i < parts.len()
        invariant
            i <= parts.len(),
            all == parts.deep_view(),
            joined@ == comma_joined(all.take(i as int)),
        decreases parts.len() - i,
    {
        if i > 0 {
            joined.append(",");
        }
        joined.append(parts[i].as_str());
        i += 1;
        proof {
            assert(all.take(i as int).drop_last() =~= all.take(i - 1));
            assert(all.take(i as int).last() == parts@[i - 1]@);
            if i == 1 {
                assert(joined@ =~= all.take(1)[0]);
            }
        }
    }
    assert(all.take(i as int) =~= all);
    joined
}

fn push_var(vars: &mut Vec<(String, String)>, name: &str, value: String)
    ensures
        final(vars).deep_view() == old(vars).deep_view().push((name@, value@)),
{
    vars.push((name.to_owned(), value));
    assert(vars.deep_view() =~= old(vars).deep_view().push((name@, value@)));
}

fn push_setting(vars: &mut Vec<(String, String)>, name: &str, value: &Option<String>)
    ensures
        final(vars).deep_view() == old(vars).deep_view() + setting(name@, value.deep_view()),
{
    match value {
        Some(value) => {
            push_var(vars, name, value.clone());
            assert(vars.deep_view() =~= old(vars).deep_view() + seq![(name@, value@)]);
        },
        None => {
            assert(vars.deep_view() =~= old(vars).deep_view() + Seq::empty());
        },
    }
}

impl ExternalAgentParticipant {
    /// A participant that runs `program` with `args` in `cwd`, sets `envs` over the
    /// inherited environment, waits for the agent's output for no longer than
    /// `read_timeout`, and isolates the result with `output`.
    pub fn new(
        program: String,
        args: Vec<String>,
        envs: Vec<(String, String)>,
        cwd: String,
        output: OutputAdapter,
        read_timeout: Option<Span>,
    ) -> (participant: ExternalAgentParticipant)
        ensures
            participant@ == (AgentView {
                program: program@,
                args: args.deep_view(),
                envs: envs.deep_view(),
                cwd: cwd@,
                output,
                read_timeout: read_timeout.deep_view(),
                stderr_dir: None,
                inbox: None,
                outbox: None,
                role: None,
                input_mode: AgentInputMode::Body,
            }),
    {
        ExternalAgentParticipant {
            program,
            args,
            envs,
            cwd,
            output,
            read_timeout,
            stderr_dir: None,
            inbox: None,
            outbox: None,
            role: None,
            input_mode: AgentInputMode::Body,
        }
    }

    /// Sets the directory that standard error of successful runs is kept in.
    pub fn with_stderr_dir(self, dir: String) -> (participant: ExternalAgentParticipant)
        ensures
            participant@ == (AgentView { stderr_dir: Some(dir@), ..self@ }),
    {
        let mut participant = self;
        participant.stderr_dir = Some(dir);
        participant
    }

    /// Sets the mailbox that the agent is told of.
    pub fn with_inbox(self, inbox: String) -> (participant: ExternalAgentParticipant)
        ensures
            participant@ == (AgentView { inbox: Some(inbox@), ..self@ }),
    {
        let mut participant = self;
        participant.inbox = Some(inbox);
        participant
    }

    /// Sets the outbox that the agent is told of.
    pub fn with_outbox(self, outbox: String) -> (participant: ExternalAgentParticipant)
        ensures
            participant@ == (AgentView { outbox: Some(outbox@), ..self@ }),
    {
        let mut participant = self;
        participant.outbox = Some(outbox);
        participant
    }

    /// Sets the role that the agent is told of. Without one the agent sees no role,
    /// even where the host inherited one.
    pub fn with_role(self, role: String) -> (participant: ExternalAgentParticipant)
        ensures
            participant@ == (AgentView { role: Some(role@), ..self@ }),
    {
        let mut participant = self;
        participant.role = Some(role);
        participant
    }

    /// Sets what the agent gets on its input for a batch.
    pub fn with_input_mode(self, mode: AgentInputMode) -> (participant: ExternalAgentParticipant)
        ensures
            participant@ == (AgentView { input_mode: mode, ..self@ }),
    {
        let mut participant = self;
        participant.input_mode = mode;
        participant
    }

    /// The variables that describe `request` to the agent. They are set after the
    /// fixed ones.
    pub fn turn_envs(&self, request: &MessageEnvelope) -> (vars: Vec<(String, String)>)
        ensures
            vars.deep_view() == self@.turn_vars(request@),
    {
        let mut vars: Vec<(String, String)> = Vec::new();
        assert(vars.deep_view() =~= Seq::empty());
        push_var(&mut vars, "BATON_MESSAGE_ID", request.message_id.clone());
        push_var(&mut vars, "BATON_CONVERSATION_ID", request.conversation_id.clone());
        push_var(&mut vars, "BATON_FROM", request.from.clone());
        push_var(&mut vars, "BATON_TO", request.to.clone());
        push_var(&mut vars, "BATON_KIND", request.kind.as_wire_str().to_owned());
        let in_reply_to = match &request.in_reply_to {
            Some(id) => id.clone(),
            None => String::new(),
        };
        push_var(&mut vars, "BATON_IN_REPLY_TO", in_reply_to);
        push_var(&mut vars, "BATON_TS_MS", decimal_text(request.ts_ms as u128));
        push_setting(&mut vars, "BATON_INBOX", &self.inbox);
        push_setting(&mut vars, "BATON_OUTBOX", &self.outbox);
        push_setting(&mut vars, "BATON_ROLE", &self.role);
        assert(vars.deep_view() =~= self@.turn_vars(request@));
        vars
    }

    /// The variables that describe a batch to the agent.
    pub fn turn_envs_batch(&self, requests: &[MessageEnvelope]) -> (vars: Vec<(String, String)>)
        requires
            requests.len() > 0,
        ensures
            vars.deep_view() == self@.batch_vars(batch_view(requests@)),
    {
        let mut vars = self.turn_envs(&requests[requests.len() - 1]);
        push_var(&mut vars, "BATON_BATCH_SIZE", decimal_text(requests.len() as u128));
        vars
    }

    fn hidden(&self) -> (names: Vec<String>)
        ensures
            names.deep_view() == self@.hidden_vars(),
    {
        let mut names: Vec<String> = Vec::new();
        if self.role.is_none() {
            names.push("BATON_ROLE".to_owned());
        }
        assert(names.deep_view() =~= self@.hidden_vars());
        names
    }

    fn child_with(&self, vars: Vec<(String, String)>, payload: Vec<u8>) -> (spec: ChildSpec)
        ensures
            spec@ == self@.child(vars.deep_view(), payload@),
    {
        let mut envs = copy_pairs(&self.envs);
        let mut vars = vars;
        let ghost fixed = envs.deep_view();
        let ghost added = vars.deep_view();
        envs.append(&mut vars);
        assert(envs.deep_view() =~= fixed + added);
        ChildSpec {
            program: self.program.clone(),
            args: copy_texts(&self.args),
            envs,
            env_removals: self.hidden(),
            cwd: Some(self.cwd.clone()),
            payload,
            read_timeout: self.read_timeout,
        }
    }

    /// The child to run for `request`.
    pub fn child_spec(&self, request: &MessageEnvelope) -> (spec: ChildSpec)
        ensures
            spec@ == self@.turn_child(request@),
    {
        self.child_with(self.turn_envs(request), request.body.as_str().as_bytes_vec())
    }

    /// What the agent gets on its input for `requests`, where `encoded` is each of
    /// them as JSON.
    pub fn batch_stdin(&self, requests: &[MessageEnvelope], encoded: Encoded) -> (stdin: Result<
        Vec<u8>,
        BatonError,
    >)
        requires
            requests.len() > 0,
            encoded matches Ok(documents) ==> documents.len() == requests.len(),
        ensures
            outcome_view(stdin) == self@.batch_input(batch_view(requests@), encoded_view(encoded)),
    {
        match self.input_mode {
            AgentInputMode::Body => Ok(requests[0].body.as_str().as_bytes_vec()),
            AgentInputMode::BatchJson => match encoded {
                Ok(documents) => {
                    let mut json = "{\"batch\":[".to_owned();
                    json.append(join_with_commas(&documents).as_str());
                    json.append("]}");
                    Ok(json.as_str().as_bytes_vec())
                },
                Err(problem) => Err(
                    BatonError::Decode(
                        "could not encode batch-json stdin: ".to_owned().concat(problem.as_str()),
                    ),
                ),
            },
        }
    }

    /// The child to run for `requests`, where `encoded` is each of them as JSON.
    pub fn batch_child_spec(&self, requests: &[MessageEnvelope], encoded: Encoded) -> (spec: Result<
        ChildSpec,
        BatonError,
    >)
        requires
            requests.len() > 0,
            encoded matches Ok(documents) ==> documents.len() == requests.len(),
        ensures
            outcome_view(spec) == self@.batch_child(batch_view(requests@), encoded_view(encoded)),
    {
        match self.batch_stdin(requests, encoded) {
            Ok(payload) => Ok(self.child_with(self.turn_envs_batch(requests), payload)),
            Err(err) => Err(err),
        }
    }

    /// What is to be kept of a successful run's standard error.
    pub fn persist_stderr(&self, message_id: &str, stderr: &str) -> (record: Option<StderrRecord>)
        ensures
            record.deep_view() == self@.stderr_record(message_id@, stderr@),
    {
        if is_blank(stderr) {
            return None;
        }
        match &self.stderr_dir {
            Some(dir) => Some(
                StderrRecord {
                    dir: dir.clone(),
                    file_name: safe_file_name(message_id),
                    text: stderr.to_owned(),
                },
            ),
            None => None,
        }
    }

    /// What is to be kept of the standard error of the run for `request`.
    pub fn turn_stderr(&self, request: &MessageEnvelope, captured: &Captured) -> (record: Option<
        StderrRecord,
    >)
        ensures
            record.deep_view() == self@.run_record(request@.message_id, captured_view(*captured)),
    {
        match captured {
            Ok((_stdout, stderr)) => self.persist_stderr(
                request.message_id.as_str(),
                stderr.as_str(),
            ),
            Err(_) => None,
        }
    }

    /// What is to be kept of the standard error of the run for `requests`: it goes by
    /// the identifier of the last one.
    pub fn batch_stderr(&self, requests: &[MessageEnvelope], captured: &Captured) -> (record:
        Option<StderrRecord>)
        requires
            requests.len() > 0,
        ensures
            record.deep_view() == self@.run_record(
                batch_view(requests@).last().message_id,
                captured_view(*captured),
            ),
    {
        self.turn_stderr(&requests[requests.len() - 1], captured)
    }

    /// The result of a run: what the output adapter isolates from its output.
    pub fn try_respond(&self, captured: Captured) -> (body: Result<String, BatonError>)
        ensures
            outcome_view(body) == self@.run_body(captured_view(captured)),
    {
        match captured {
            Ok((stdout, _stderr)) => self.output.reply_body(stdout.as_str()),
            Err(err) => Err(err),
        }
    }

    /// The reply to `request` after a run.
    pub fn respond(
        &self,
        request: &MessageEnvelope,
        captured: Captured,
        ts_ms: u64,
        seq: &mut ResponseSeq,
    ) -> (response: MessageEnvelope)
        ensures
            response@ == self@.reply(request@, captured_view(captured), ts_ms, old(seq)@),
            final(seq)@ == seq_after(old(seq)@),
    {
        match self.try_respond(captured) {
            Ok(body) => correlated_reply(request, MessageKind::Response, body, ts_ms, seq),
            Err(err) => synthesize_error_response(request, err.to_text().as_str(), ts_ms, seq),
        }
    }

    /// The replies to `requests` after one run for all of them: each request gets the
    /// one result, or the one failure, in a reply of its own, built at the time that
    /// `stamps` holds for it.
    pub fn respond_batch(
        &self,
        requests: &[MessageEnvelope],
        captured: Captured,
        stamps: &[u64],
        seq: &mut ResponseSeq,
    ) -> (responses: Vec<MessageEnvelope>)
        requires
            stamps.len() == requests.len(),
        ensures
            responses.len() == requests.len(),
            forall|i: int|
                0 <= i < requests.len() ==> (#[trigger] responses[i])@ == self@.reply(
                    requests[i]@,
                    captured_view(captured),
                    stamps[i],
                    drawn(old(seq)@, i as nat),
                ),
            final(seq)@ == drawn(old(seq)@, requests.len() as nat),
    {
        let ghost run = captured_view(captured);
        let ghost start = seq@;
        let (kind, body) = match self.try_respond(captured) {
            Ok(body) => (MessageKind::Response, body),
            Err(err) => (MessageKind::Error, err.to_text()),
        };
        let mut responses: Vec<MessageEnvelope> = Vec::new();
        let mut i: usize = 0;
        while i < requests.len()
            invariant
                i <= requests.len(),
                stamps.len() == requests.len(),
                responses.len() == i,
                seq@ == drawn(start, i as nat),
                (kind, body@) == match self@.run_body(run) {
                    Ok(body) => (MessageKind::Response, body),
                    Err(err) => (MessageKind::Error, err.text()),
                },
                forall|j: int|
                    0 <= j < i ==> (#[trigger] responses[j])@ == self@.reply(
                        requests[j]@,
                        run,
                        stamps[j],
                        drawn(start, j as nat),
                    ),
            decreases requests.len() - i,
        {
            responses.push(correlated_reply(&requests[i], kind, body.clone(), stamps[i], seq));
            i += 1;
        }
        responses
    }
}

} // verus!
