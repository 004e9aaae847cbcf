//! The participants, driven against stand-ins for the host: a child process that has
//! its output ready, a mailbox in memory, a provider with a canned answer.

use std::cell::RefCell;
use std::collections::{BTreeMap, VecDeque};

use baton::capture::{
    StderrHead, StdoutTail, MAX_STDERR_BYTES, MAX_STDOUT_BYTES, STDOUT_TRUNCATION_MARKER,
};
use baton::child::{Captured, ChildAction, ChildEvent, ChildRun, ChildSpec};
use baton::error::BatonError;
use baton::external::{AgentInputMode, ExternalAgentParticipant, StderrRecord};
use baton::local::{LocalParticipant, ProviderCall, ProviderFailure, ProviderReply, Usage};
use baton::mailbox::{MailboxAction, MailboxEvent, MailboxParticipant};
use baton::message::{fresh_message_id, MessageEnvelope, MessageKind, ResponseSeq};
use baton::output::OutputAdapter;
use baton::participant::Participant;
use baton::record::{
    Exchange, ExchangeMeta, Outcome, RequestRecord, WrappedExchange, EXCHANGE_SCHEMA,
};
use baton::span::Span;
use baton::subprocess::SubprocessParticipant;
use baton::testing::{correlated_reply, DoneParticipant, LoopingParticipant};
use baton::windows::append_windows_arg;

const NOW_MS: u64 = 1_700_000_000_500;

fn envelope(
    id: &str,
    conversation: &str,
    from: &str,
    to: &str,
    kind: MessageKind,
    body: &str,
    ts_ms: u64,
) -> MessageEnvelope {
    MessageEnvelope::new(
        id.to_string(),
        conversation.to_string(),
        from.to_string(),
        to.to_string(),
        kind,
        body.to_string(),
        ts_ms,
    )
}

fn request_with_body(id: &str, body: &str) -> MessageEnvelope {
    envelope(
        id,
        "conv-42",
        "agent-a",
        "agent-b",
        MessageKind::Request,
        body,
        1_700_000_000_000,
    )
}

fn request_envelope() -> MessageEnvelope {
    request_with_body("m-req-1", "what is 2+2?")
}

fn test_meta() -> ExchangeMeta {
    ExchangeMeta {
        model: "provider-test-model".to_string(),
        base_url: "https://api.anthropic.com".to_string(),
    }
}

// -- JSON ------------------------------------------------------------------

fn text_value(text: &str) -> serde_json::Value {
    serde_json::Value::String(text.to_string())
}

fn optional_value(text: &Option<String>) -> serde_json::Value {
    match text {
        Some(text) => text_value(text),
        None => serde_json::Value::Null,
    }
}

fn kind_of(wire: &str) -> Option<MessageKind> {
    match wire {
        "request" => Some(MessageKind::Request),
        "response" => Some(MessageKind::Response),
        "done" => Some(MessageKind::Done),
        "error" => Some(MessageKind::Error),
        "notify" => Some(MessageKind::Notify),
        _ => None,
    }
}

fn exchange_value(wrapped: &WrappedExchange) -> serde_json::Value {
    let record = &wrapped.exchange;
    let mut map = serde_json::Map::new();
    map.insert("schema".to_string(), text_value(&wrapped.schema));
    map.insert("ts_ms".to_string(), record.request.ts_ms.into());
    map.insert("model".to_string(), text_value(&record.request.model));
    map.insert("base_url".to_string(), text_value(&record.request.base_url));
    map.insert("prompt".to_string(), text_value(&record.request.prompt));
    if let Outcome::Error { ts_ms, duration_ms, kind, message } = &record.outcome {
        map.insert("ended_ms".to_string(), (*ts_ms).into());
        map.insert("duration_ms".to_string(), (*duration_ms).into());
        map.insert("kind".to_string(), text_value(kind));
        map.insert("message".to_string(), text_value(message));
    }
    serde_json::Value::Object(map)
}

fn encode(envelope: &MessageEnvelope) -> String {
    let mut map = serde_json::Map::new();
    map.insert("message_id".to_string(), text_value(&envelope.message_id));
    map.insert("conversation_id".to_string(), text_value(&envelope.conversation_id));
    map.insert("from".to_string(), text_value(&envelope.from));
    map.insert("to".to_string(), text_value(&envelope.to));
    map.insert("kind".to_string(), text_value(envelope.kind.as_wire_str()));
    map.insert("body".to_string(), text_value(&envelope.body));
    map.insert("ts_ms".to_string(), envelope.ts_ms.into());
    map.insert("in_reply_to".to_string(), optional_value(&envelope.in_reply_to));
    if let Some(wrapped) = &envelope.exchange {
        map.insert("exchange".to_string(), exchange_value(wrapped));
    }
    serde_json::to_string(&serde_json::Value::Object(map)).expect("serializes")
}

fn text_at(value: &serde_json::Value, key: &str) -> Result<String, String> {
    value
        .get(key)
        .and_then(|found| found.as_str())
        .map(|found| found.to_string())
        .ok_or_else(|| format!("missing field `{key}`"))
}

fn number_at(value: &serde_json::Value, key: &str) -> Result<u64, String> {
    value
        .get(key)
        .and_then(|found| found.as_u64())
        .ok_or_else(|| format!("missing field `{key}`"))
}

fn decode(json: &str) -> Result<MessageEnvelope, String> {
    let value: serde_json::Value = serde_json::from_str(json).map_err(|err| err.to_string())?;
    let kind = kind_of(&text_at(&value, "kind")?).ok_or_else(|| "unknown kind".to_string())?;
    let mut decoded = MessageEnvelope::new(
        text_at(&value, "message_id")?,
        text_at(&value, "conversation_id")?,
        text_at(&value, "from")?,
        text_at(&value, "to")?,
        kind,
        text_at(&value, "body")?,
        number_at(&value, "ts_ms")?,
    );
    decoded.in_reply_to = text_at(&value, "in_reply_to").ok();
    if let Some(record) = value.get("exchange") {
        decoded.exchange = Some(WrappedExchange::new(Exchange {
            request: RequestRecord {
                ts_ms: number_at(record, "ts_ms")?,
                model: text_at(record, "model")?,
                base_url: text_at(record, "base_url")?,
                prompt: text_at(record, "prompt")?,
                session_id: None,
                turn_index: None,
            },
            outcome: Outcome::Error {
                ts_ms: number_at(record, "ended_ms")?,
                duration_ms: number_at(record, "duration_ms")?,
                kind: text_at(record, "kind")?,
                message: text_at(record, "message")?,
            },
        }));
    }
    Ok(decoded)
}

// -- A child process that is not there ---------------------------------------

struct FakeChild {
    stdout: Vec<u8>,
    stderr: Vec<u8>,
    exit_code: i32,
    holds_stdout_ms: u64,
    /// How much of its input it takes in before it stops reading, for as long as it holds
    /// its output open.
    takes_in: usize,
    /// Whether its output is complete before it takes in its input.
    prints_first: bool,
    missing: bool,
}

fn child(stdout: &[u8], stderr: &[u8], exit_code: i32) -> FakeChild {
    FakeChild {
        stdout: stdout.to_vec(),
        stderr: stderr.to_vec(),
        exit_code,
        holds_stdout_ms: 0,
        takes_in: usize::MAX,
        prints_first: false,
        missing: false,
    }
}

fn slow_child(stdout: &[u8], stderr: &[u8], holds_stdout_ms: u64) -> FakeChild {
    FakeChild { holds_stdout_ms, ..child(stdout, stderr, 0) }
}

fn drained(written: &[u8]) -> Vec<u8> {
    let mut tail = StdoutTail::new();
    for chunk in written.chunks(8192) {
        tail.push(chunk);
    }
    tail.finish()
}

fn collected(written: &[u8]) -> String {
    let mut head = StderrHead::new();
    for chunk in written.chunks(8192) {
        head.push(chunk);
    }
    head.finish()
}

fn outlasts(child: &FakeChild, limit: Span) -> bool {
    limit.as_millis() < child.holds_stdout_ms as u128
}

/// Performs the actions of a run on `child`.
fn capture(spec: &ChildSpec, child: &FakeChild) -> Captured {
    let mut run = ChildRun::new(spec);
    loop {
        let event = match run.action() {
            ChildAction::Spawn => {
                if child.missing {
                    ChildEvent::SpawnFailed("No such file or directory (os error 2)".to_string())
                } else {
                    ChildEvent::Spawned
                }
            }
            ChildAction::WritePayload(limit) => {
                let stuck = spec.payload.len() > child.takes_in;
                match limit {
                    _ if child.prints_first => ChildEvent::StdoutClosed(drained(&child.stdout)),
                    Some(limit) if stuck && outlasts(child, limit) => ChildEvent::TimedOut,
                    _ if stuck => ChildEvent::WriteFailed("Broken pipe (os error 32)".to_string()),
                    _ => ChildEvent::PayloadWritten,
                }
            }
            ChildAction::FinishPayload => ChildEvent::PayloadWritten,
            ChildAction::AwaitStdout(limit) => match limit {
                Some(limit) if outlasts(child, limit) => ChildEvent::TimedOut,
                _ => ChildEvent::StdoutClosed(drained(&child.stdout)),
            },
            ChildAction::Reap => ChildEvent::Exited {
                success: child.exit_code == 0,
                status: format!("exit status: {}", child.exit_code),
            },
            ChildAction::KillAndReap => ChildEvent::Killed,
            ChildAction::CollectStderr(_) => ChildEvent::StderrCollected(collected(&child.stderr)),
            ChildAction::Nothing => break,
        };
        run = run.step(event);
    }
    run.into_captured().expect("a run with nothing left to do is finished")
}

fn sh(script: &str, payload: &[u8], read_timeout: Option<Span>) -> ChildSpec {
    ChildSpec {
        program: "sh".to_string(),
        args: vec!["-c".to_string(), script.to_string()],
        envs: vec![],
        env_removals: vec![],
        cwd: None,
        payload: payload.to_vec(),
        read_timeout,
    }
}

/// The environment that a child of `spec` sees.
fn environment(spec: &ChildSpec, inherited: &[(&str, &str)]) -> BTreeMap<String, String> {
    let mut seen: BTreeMap<String, String> = inherited
        .iter()
        .map(|(name, value)| (name.to_string(), value.to_string()))
        .collect();
    for (name, value) in &spec.envs {
        seen.insert(name.clone(), value.clone());
    }
    for name in &spec.env_removals {
        seen.remove(name);
    }
    seen
}

// -- Provider-backed -----------------------------------------------------------

struct FakeHttp {
    status: u16,
    body: String,
}

impl FakeHttp {
    fn send(&self, _prompt: &str) -> Result<ProviderReply, ProviderFailure> {
        let value: serde_json::Value = serde_json::from_str(&self.body).expect("canned JSON");
        if self.status != 200 {
            let message = value
                .get("error")
                .and_then(|error| error.get("message"))
                .and_then(|message| message.as_str())
                .expect("a canned error message");
            return Err(ProviderFailure {
                kind: "auth".to_string(),
                message: format!("authentication failed ({}): {}", self.status, message),
            });
        }
        let usage = value.get("usage");
        let tokens = |key: &str| usage.and_then(|u| u.get(key)).and_then(|n| n.as_u64());
        Ok(ProviderReply {
            text: value["content"][0]["text"].as_str().expect("a canned text").to_string(),
            usage: Usage {
                input_tokens: tokens("input_tokens"),
                output_tokens: tokens("output_tokens"),
            },
            stop_reason: value.get("stop_reason").and_then(|r| r.as_str()).map(|r| r.to_string()),
        })
    }
}

fn local_response(status: u16, body: &str, request: &MessageEnvelope) -> MessageEnvelope {
    let http = FakeHttp { status, body: body.to_string() };
    let participant = LocalParticipant::new(http, test_meta());
    let result = participant.transport().send(participant.prompt(request));
    let call = ProviderCall {
        request_ts: NOW_MS,
        outcome_ts: NOW_MS + 7,
        duration_ms: 7,
        result,
    };
    participant.respond(request, call, &mut ResponseSeq::new())
}

#[test]
fn local_participant_builds_response_envelope_correlated_to_request() {
    let body = r#"{"content": [{"type": "text", "text": "four"}]}"#;
    let request = request_envelope();

    let response = local_response(200, body, &request);

    assert_eq!(response.kind, MessageKind::Response);
    assert_eq!(response.body, "four");
    assert_eq!(response.conversation_id, "conv-42");
    assert_eq!(response.in_reply_to.as_deref(), Some("m-req-1"));
    assert_eq!(response.from, "agent-b");
    assert_eq!(response.to, "agent-a");
    assert_ne!(response.message_id, request.message_id);

    let wrapped = response.exchange.as_ref().expect("wrapped exchange present");
    assert_eq!(wrapped.schema, EXCHANGE_SCHEMA);
    match &wrapped.exchange.outcome {
        Outcome::Success { reply, .. } => assert_eq!(reply, "four"),
        other => panic!("expected Ok outcome, got {other:?}"),
    }
    assert_eq!(wrapped.exchange.request.prompt, "what is 2+2?");
    assert_eq!(wrapped.exchange.request.model, "provider-test-model");
}

#[test]
fn local_participant_wraps_reported_token_usage() {
    let body = r#"{"content": [{"type": "text", "text": "hi"}], "usage": {"input_tokens": 7, "output_tokens": 11}}"#;

    let response = local_response(200, body, &request_envelope());

    match &response.exchange.expect("wrapped").exchange.outcome {
        Outcome::Success { input_tokens, output_tokens, .. } => {
            assert_eq!(*input_tokens, Some(7));
            assert_eq!(*output_tokens, Some(11));
        }
        other => panic!("expected Ok outcome, got {other:?}"),
    }
}

#[test]
fn local_participant_wraps_stop_reason() {
    let body =
        r#"{"content": [{"type": "text", "text": "unfinished"}], "stop_reason": "max_tokens"}"#;

    let response = local_response(200, body, &request_envelope());

    match &response.exchange.expect("wrapped").exchange.outcome {
        Outcome::Success { stop_reason, .. } => {
            assert_eq!(stop_reason.as_deref(), Some("max_tokens"));
        }
        other => panic!("expected Ok outcome, got {other:?}"),
    }
}

#[test]
fn local_participant_delivers_error_envelope_on_provider_failure() {
    let body = r#"{"type":"error","error":{"type":"authentication_error","message":"invalid x-api-key"}}"#;

    let response = local_response(401, body, &request_envelope());

    assert_eq!(response.kind, MessageKind::Error);
    assert_eq!(response.in_reply_to.as_deref(), Some("m-req-1"));
    assert_eq!(response.conversation_id, "conv-42");
    assert!(
        response.body.contains("invalid x-api-key"),
        "error body carries the failure description: {}",
        response.body
    );
    match &response.exchange.expect("wrapped failed exchange").exchange.outcome {
        Outcome::Error { kind, .. } => assert_eq!(kind, "auth"),
        other => panic!("expected Error outcome, got {other:?}"),
    }
}

// -- The trait -------------------------------------------------------------------

/// A participant that answers from a queue.
struct ScriptedParticipant {
    replies: RefCell<VecDeque<String>>,
}

impl ScriptedParticipant {
    fn new(replies: &[&str]) -> Self {
        ScriptedParticipant {
            replies: RefCell::new(replies.iter().map(|reply| reply.to_string()).collect()),
        }
    }
}

fn scripted_reply(request: &MessageEnvelope, kind: MessageKind, body: &str) -> MessageEnvelope {
    let mut response = envelope(
        &format!("{}-r-{}", request.conversation_id, request.message_id),
        &request.conversation_id,
        &request.to,
        &request.from,
        kind,
        body,
        request.ts_ms + 1,
    );
    response.in_reply_to = Some(request.message_id.clone());
    response
}

impl Participant for ScriptedParticipant {
    fn respond(&self, request: &MessageEnvelope) -> MessageEnvelope {
        match self.replies.borrow_mut().pop_front() {
            Some(body) => correlated_reply(request, MessageKind::Response, body),
            None => {
                correlated_reply(request, MessageKind::Error, "no scripted reply".to_string())
            }
        }
    }
}

#[test]
fn scripted_participant_answers_in_order_correlated_to_each_request() {
    let participant = ScriptedParticipant::new(&["first", "second"]);

    let req1 = request_envelope();
    let resp1 = participant.respond(&req1);
    assert_eq!(resp1.kind, MessageKind::Response);
    assert_eq!(resp1.body, "first");
    assert_eq!(resp1.in_reply_to.as_deref(), Some("m-req-1"));
    assert_eq!(resp1.from, "agent-b");
    assert_eq!(resp1.to, "agent-a");
    assert!(resp1.exchange.is_none(), "scripted fake runs no provider call");

    let mut req2 = request_envelope();
    req2.message_id = "m-req-2".to_string();
    let resp2 = participant.respond(&req2);
    assert_eq!(resp2.body, "second");
    assert_eq!(resp2.in_reply_to.as_deref(), Some("m-req-2"));

    let resp3 = participant.respond(&request_envelope());
    assert_eq!(resp3.kind, MessageKind::Error);
}

#[test]
fn default_batch_answers_each_request_on_its_own() {
    let participant = ScriptedParticipant::new(&["one", "two", "three"]);
    let requests = vec![
        request_with_body("m-req-1", "first"),
        request_with_body("m-req-2", "second"),
        request_with_body("m-req-3", "third"),
    ];
    let responses = participant.respond_batch(&requests);
    assert_eq!(responses.len(), 3);
    let bodies: Vec<&str> = responses.iter().map(|response| response.body.as_str()).collect();
    assert_eq!(bodies, vec!["one", "two", "three"]);
    for (request, response) in requests.iter().zip(&responses) {
        assert_eq!(response.in_reply_to.as_deref(), Some(request.message_id.as_str()));
    }
    assert!(participant.respond_batch(&[]).is_empty());
}

#[test]
fn looping_and_done_participants_follow_from_their_requests() {
    let request = request_envelope();
    let looping = LoopingParticipant::new("again".to_string());
    let reply = looping.respond(&request);
    assert_eq!(reply, scripted_reply(&request, MessageKind::Response, "again"));

    let counting = LoopingParticipant::with_usage("again".to_string(), 3, 5);
    let requests = vec![request_with_body("m-req-1", "a"), request_with_body("m-req-2", "b")];
    let replies = counting.respond_batch(&requests);
    assert_eq!(replies.len(), 2);
    assert_eq!(replies[1].message_id, "conv-42-r-m-req-2");
    assert_eq!(replies[1].ts_ms, 1_700_000_000_001);
    let record = replies[1].exchange.as_ref().expect("nested usage");
    assert_eq!(record.schema, EXCHANGE_SCHEMA);
    assert_eq!(record.exchange.request.model, "fake-model");
    assert_eq!(record.exchange.request.base_url, "fake-base-url");
    assert_eq!(record.exchange.request.prompt, "b");
    assert_eq!(
        record.exchange.outcome,
        Outcome::Success {
            ts_ms: 1_700_000_000_001,
            duration_ms: 0,
            reply: "again".to_string(),
            input_tokens: Some(3),
            output_tokens: Some(5),
            stop_reason: None,
        }
    );

    let done = DoneParticipant.respond(&request);
    assert_eq!(done, scripted_reply(&request, MessageKind::Done, "done"));
}

// -- Envelope-speaking children --------------------------------------------------

fn stub(script: &str, stub_out: &str, read_timeout: Span) -> SubprocessParticipant {
    SubprocessParticipant::new(
        "sh".to_string(),
        vec!["-c".to_string(), script.to_string()],
        vec![("STUB_OUT".to_string(), stub_out.to_string())],
        read_timeout,
    )
}

fn subprocess_response(
    participant: &SubprocessParticipant,
    child: &FakeChild,
    request: &MessageEnvelope,
) -> MessageEnvelope {
    let captured = match participant.child_spec(Ok(encode(request))) {
        Ok(spec) => {
            assert_eq!(spec.payload, encode(request).into_bytes());
            capture(&spec, child)
        }
        Err(err) => Err(err),
    };
    let decoded = match &captured {
        Ok((stdout, _)) => decode(stdout),
        Err(_) => Err(String::new()),
    };
    participant.respond(request, captured, decoded, NOW_MS, &mut ResponseSeq::new())
}

#[test]
fn subprocess_returns_child_envelope_unchanged_on_success() {
    let mut child_reply = envelope(
        "child-resp-1",
        "conv-42",
        "agent-b",
        "agent-a",
        MessageKind::Response,
        "four",
        1_700_000_000_001,
    );
    child_reply.in_reply_to = Some("m-req-1".to_string());
    let json = encode(&child_reply);

    let participant =
        stub("cat >/dev/null; printf %s \"$STUB_OUT\"", &json, Span::from_secs(5));
    let response =
        subprocess_response(&participant, &child(json.as_bytes(), b"", 0), &request_envelope());

    assert_eq!(response, child_reply);
}

#[test]
fn subprocess_passes_through_delivered_error_envelope() {
    let mut child_error = envelope(
        "child-err-1",
        "conv-42",
        "agent-b",
        "agent-a",
        MessageKind::Error,
        "invalid x-api-key",
        1_700_000_000_002,
    );
    child_error.in_reply_to = Some("m-req-1".to_string());
    child_error.exchange = Some(WrappedExchange::new(Exchange {
        request: RequestRecord {
            ts_ms: 1_700_000_000_000,
            model: "provider-test-model".to_string(),
            base_url: "https://api.anthropic.com".to_string(),
            prompt: "what is 2+2?".to_string(),
            session_id: None,
            turn_index: None,
        },
        outcome: Outcome::Error {
            ts_ms: 1_700_000_000_002,
            duration_ms: 2,
            kind: "auth".to_string(),
            message: "invalid x-api-key".to_string(),
        },
    }));
    let json = encode(&child_error);

    let participant =
        stub("cat >/dev/null; printf %s \"$STUB_OUT\"", &json, Span::from_secs(5));
    let response =
        subprocess_response(&participant, &child(json.as_bytes(), b"", 0), &request_envelope());

    assert_eq!(response, child_error);
    assert_eq!(response.kind, MessageKind::Error);
    assert!(response.exchange.is_some(), "nested record preserved");
}

fn assert_synthesized_error(response: &MessageEnvelope) {
    assert_eq!(response.kind, MessageKind::Error);
    assert_eq!(response.conversation_id, "conv-42");
    assert_eq!(response.in_reply_to.as_deref(), Some("m-req-1"));
    assert_eq!(response.from, "agent-b");
    assert_eq!(response.to, "agent-a");
    assert!(
        response.exchange.is_none(),
        "a machinery failure nests no provider record"
    );
}

#[test]
fn subprocess_synthesizes_error_on_nonzero_exit() {
    let participant = stub("cat >/dev/null; echo boom >&2; exit 3", "", Span::from_secs(5));
    let response =
        subprocess_response(&participant, &child(b"", b"boom\n", 3), &request_envelope());
    assert_synthesized_error(&response);
    assert!(
        response.body.contains("boom") || response.body.contains("exit"),
        "body describes the child failure: {}",
        response.body
    );
    assert_eq!(
        response.body,
        "transport error: child process exited with exit status: 3: boom"
    );
}

#[test]
fn subprocess_synthesizes_error_on_malformed_stdout() {
    let participant = stub("cat >/dev/null; printf 'not an envelope'", "", Span::from_secs(5));
    let response =
        subprocess_response(&participant, &child(b"not an envelope", b"", 0), &request_envelope());
    assert_synthesized_error(&response);
    assert!(response.body.starts_with(
        "decode error: child participant produced a malformed response envelope: "
    ));
}

#[test]
fn subprocess_synthesizes_error_on_absent_envelope() {
    let participant = stub("cat >/dev/null", "", Span::from_secs(5));
    let response = subprocess_response(&participant, &child(b"", b"", 0), &request_envelope());
    assert_synthesized_error(&response);
    assert_eq!(
        response.body,
        "decode error: child participant produced no response envelope"
    );
}

#[test]
fn subprocess_synthesizes_error_on_read_timeout() {
    let participant = stub("cat >/dev/null; sleep 30", "", Span::from_millis(150));
    let response =
        subprocess_response(&participant, &slow_child(b"", b"", 30_000), &request_envelope());
    assert_synthesized_error(&response);
    assert!(
        response.body.contains("timeout"),
        "body names the timeout: {}",
        response.body
    );
    assert_eq!(
        response.body,
        "transport error: child process exceeded the 150ms read timeout"
    );
}

#[test]
fn subprocess_synthesizes_error_when_program_missing() {
    let participant = SubprocessParticipant::new(
        "baton-no-such-program-xyz".to_string(),
        vec![],
        vec![],
        Span::from_secs(5),
    );
    let missing = FakeChild { missing: true, ..child(b"", b"", 0) };
    let response = subprocess_response(&participant, &missing, &request_envelope());
    assert_synthesized_error(&response);
    assert_eq!(
        response.body,
        "io error: could not spawn child process \"baton-no-such-program-xyz\": \
         No such file or directory (os error 2)"
    );
}

// -- Agents' command lines ---------------------------------------------------------

fn external_agent(script: &str, read_timeout: Span) -> ExternalAgentParticipant {
    external_agent_with_output(script, OutputAdapter::Raw, read_timeout)
}

fn external_agent_unbounded(script: &str) -> ExternalAgentParticipant {
    ExternalAgentParticipant::new(
        "sh".to_string(),
        vec!["-c".to_string(), script.to_string()],
        vec![],
        "/work/tree".to_string(),
        OutputAdapter::Raw,
        None,
    )
}

fn external_agent_with_output(
    script: &str,
    output: OutputAdapter,
    read_timeout: Span,
) -> ExternalAgentParticipant {
    ExternalAgentParticipant::new(
        "sh".to_string(),
        vec!["-c".to_string(), script.to_string()],
        vec![],
        "/work/tree".to_string(),
        output,
        Some(read_timeout),
    )
}

fn agent_response(
    participant: &ExternalAgentParticipant,
    child: &FakeChild,
    request: &MessageEnvelope,
) -> MessageEnvelope {
    let captured = capture(&participant.child_spec(request), child);
    participant.respond(request, captured, NOW_MS, &mut ResponseSeq::new())
}

fn batch_spec(participant: &ExternalAgentParticipant, requests: &[MessageEnvelope]) -> ChildSpec {
    let encoded = requests.iter().map(encode).collect();
    participant.batch_child_spec(requests, Ok(encoded)).expect("the batch is encoded")
}

fn batch_responses(
    participant: &ExternalAgentParticipant,
    child: &FakeChild,
    requests: &[MessageEnvelope],
) -> Vec<MessageEnvelope> {
    let captured = capture(&batch_spec(participant, requests), child);
    let stamps = vec![NOW_MS; requests.len()];
    participant.respond_batch(requests, captured, &stamps, &mut ResponseSeq::new())
}

#[test]
fn external_agent_wraps_stdout_and_produces_cwd_side_effect() {
    let participant = external_agent(
        "cat > round1.txt; printf 'edited round1.txt and committed'",
        Span::from_secs(5),
    );
    let request = request_with_body("m-req-1", "please edit round1.txt");

    let spec = participant.child_spec(&request);
    // The agent works in the configured directory and finds the body on its input.
    assert_eq!(spec.program, "sh");
    assert_eq!(
        spec.args,
        vec!["-c", "cat > round1.txt; printf 'edited round1.txt and committed'"]
    );
    assert_eq!(spec.cwd.as_deref(), Some("/work/tree"));
    assert_eq!(spec.payload, b"please edit round1.txt");

    let response =
        agent_response(&participant, &child(b"edited round1.txt and committed", b"", 0), &request);

    assert_eq!(response.kind, MessageKind::Response);
    assert_eq!(response.body, "edited round1.txt and committed");
    assert_eq!(response.conversation_id, "conv-42");
    assert_eq!(response.in_reply_to.as_deref(), Some("m-req-1"));
    assert_eq!(response.from, "agent-b");
    assert_eq!(response.to, "agent-a");
    assert!(
        response.exchange.is_none(),
        "an agent run is not one provider call, so it nests no record"
    );
}

#[test]
fn external_agent_delivers_lossy_stdout_on_invalid_utf8() {
    let participant = external_agent("cat >/dev/null; printf '\\377'", Span::from_secs(5));
    let response =
        agent_response(&participant, &child(b"\xff", b"", 0), &request_with_body("m-req-1", "go"));
    assert_eq!(response.kind, MessageKind::Response);
    assert_eq!(response.body, "\u{fffd}");
}

#[test]
fn append_windows_arg_matches_msvc_quoting() {
    let cases = [
        ("plain", "plain"),
        ("with space", r#""with space""#),
        (r#"C:\My Dir\"#, r#""C:\My Dir\\""#),
        (r#"a\"b"#, r#""a\\\"b""#),
    ];

    for (token, expected) in cases {
        let mut line = String::new();
        append_windows_arg(&mut line, token);
        assert_eq!(line, expected, "token {token:?}");
    }
}

#[test]
fn external_agent_two_rounds_share_cwd_for_continuity() {
    // What the rounds leave behind in the working directory, by directory.
    let mut ledgers: BTreeMap<String, Vec<u8>> = BTreeMap::new();

    let round1 = external_agent("cat >> ledger.txt; printf 'r1 done'", Span::from_secs(5));
    let request1 = request_with_body("m-req-1", "ROUND-ONE-PAYLOAD");
    let spec1 = round1.child_spec(&request1);
    ledgers
        .entry(spec1.cwd.clone().expect("a working directory"))
        .or_default()
        .extend(&spec1.payload);
    let resp1 = agent_response(&round1, &child(b"r1 done", b"", 0), &request1);
    assert_eq!(resp1.body, "r1 done");

    let round2 = external_agent("cat >> ledger.txt; cat ledger.txt", Span::from_secs(5));
    let request2 = request_with_body("m-req-2", "ROUND-TWO-PAYLOAD");
    let spec2 = round2.child_spec(&request2);
    let ledger = ledgers.entry(spec2.cwd.clone().expect("a working directory")).or_default();
    ledger.extend(&spec2.payload);
    let printed = ledger.clone();
    let resp2 = agent_response(&round2, &child(&printed, b"", 0), &request2);

    assert_eq!(resp2.kind, MessageKind::Response);
    assert_eq!(resp2.in_reply_to.as_deref(), Some("m-req-2"));
    assert!(
        resp2.body.contains("ROUND-ONE-PAYLOAD"),
        "round 2 reconstructed round 1's durable artifact: {}",
        resp2.body
    );
    assert!(resp2.body.contains("ROUND-TWO-PAYLOAD"));
}

/// What a script that prints the turn's variables prints.
fn echo_baton_env(seen: &BTreeMap<String, String>) -> String {
    let value = |name: &str| seen.get(name).cloned().unwrap_or_default();
    let mut printed = String::new();
    for name in [
        "MESSAGE_ID",
        "CONVERSATION_ID",
        "FROM",
        "TO",
        "KIND",
        "IN_REPLY_TO",
        "TS_MS",
        "INBOX",
        "OUTBOX",
        "ROLE",
    ] {
        printed.push_str(&format!("{name}=[{}]\n", value(&format!("BATON_{name}"))));
    }
    let role_set = if seen.contains_key("BATON_ROLE") { "x" } else { "" };
    printed.push_str(&format!("ROLE_SET=[{role_set}]\n"));
    printed
}

fn echo_batch_env(seen: &BTreeMap<String, String>) -> String {
    let value = |name: &str| seen.get(name).cloned().unwrap_or_default();
    format!(
        "MESSAGE_ID=[{}]\nBATCH_SIZE=[{}]\n",
        value("BATON_MESSAGE_ID"),
        value("BATON_BATCH_SIZE")
    )
}

#[test]
fn external_agent_stamps_baton_env_for_request_with_role() {
    let participant = external_agent("echo", Span::from_secs(5))
        .with_inbox("/mailbox/in".to_string())
        .with_outbox("/mailbox/out".to_string())
        .with_role("scribe".to_string());
    let request = request_with_body("m-req-1", "go");

    let printed = echo_baton_env(&environment(&participant.child_spec(&request), &[]));
    let response = agent_response(&participant, &child(printed.as_bytes(), b"", 0), &request);

    assert_eq!(
        response.body,
        "MESSAGE_ID=[m-req-1]\n\
         CONVERSATION_ID=[conv-42]\n\
         FROM=[agent-a]\n\
         TO=[agent-b]\n\
         KIND=[request]\n\
         IN_REPLY_TO=[]\n\
         TS_MS=[1700000000000]\n\
         INBOX=[/mailbox/in]\n\
         OUTBOX=[/mailbox/out]\n\
         ROLE=[scribe]\n\
         ROLE_SET=[x]\n"
    );
}

#[test]
fn external_agent_notify_overrides_inherited_from_and_strips_role_without_role() {
    let inherited = [
        ("BATON_FROM", "stale-inherited-agent"),
        ("BATON_ROLE", "leaked-inherited-role"),
    ];
    let participant = ExternalAgentParticipant::new(
        "sh".to_string(),
        vec!["-c".to_string(), "echo".to_string()],
        vec![("BATON_ROLE".to_string(), "fixed-layer-role".to_string())],
        "/work/tree".to_string(),
        OutputAdapter::Raw,
        Some(Span::from_secs(5)),
    )
    .with_inbox("/mailbox/in".to_string())
    .with_outbox("/mailbox/out".to_string());
    let mut request = request_with_body("m-req-2", "milestone reached");
    request.kind = MessageKind::Notify;
    request.in_reply_to = Some("m-req-1".to_string());

    let printed = echo_baton_env(&environment(&participant.child_spec(&request), &inherited));
    let response = agent_response(&participant, &child(printed.as_bytes(), b"", 0), &request);

    assert_eq!(
        response.body,
        "MESSAGE_ID=[m-req-2]\n\
         CONVERSATION_ID=[conv-42]\n\
         FROM=[agent-a]\n\
         TO=[agent-b]\n\
         KIND=[notify]\n\
         IN_REPLY_TO=[m-req-1]\n\
         TS_MS=[1700000000000]\n\
         INBOX=[/mailbox/in]\n\
         OUTBOX=[/mailbox/out]\n\
         ROLE=[]\n\
         ROLE_SET=[]\n"
    );
}

#[test]
fn external_agent_synthesizes_error_on_nonzero_exit() {
    let participant =
        external_agent("cat >/dev/null; echo boom >&2; exit 3", Span::from_secs(5));
    let response = agent_response(
        &participant,
        &child(b"", b"boom\n", 3),
        &request_with_body("m-req-1", "go"),
    );
    assert_synthesized_error(&response);
    assert!(
        response.body.contains("boom") || response.body.contains("exit"),
        "body describes the agent failure: {}",
        response.body
    );
}

#[test]
fn external_agent_synthesizes_error_on_empty_output() {
    let participant = external_agent("cat >/dev/null", Span::from_secs(5));
    let response =
        agent_response(&participant, &child(b"", b"", 0), &request_with_body("m-req-1", "go"));
    assert_synthesized_error(&response);
    assert_eq!(response.body, "decode error: external agent produced no output");
}

#[test]
fn external_agent_synthesizes_error_on_read_timeout() {
    let participant = external_agent("cat >/dev/null; sleep 30", Span::from_millis(150));
    let response = agent_response(
        &participant,
        &slow_child(b"", b"", 30_000),
        &request_with_body("m-req-1", "go"),
    );
    assert_synthesized_error(&response);
    assert!(
        response.body.contains("timeout"),
        "body names the timeout: {}",
        response.body
    );
}

#[test]
fn external_agent_no_deadline_completes_a_turn_past_the_bounded_kill_point() {
    let script = "cat >/dev/null; sleep 1; printf 'late but done'";
    let late = slow_child(b"late but done", b"", 1_000);
    let request = request_with_body("m-req-1", "go");

    let bounded =
        agent_response(&external_agent(script, Span::from_millis(150)), &late, &request);
    assert_synthesized_error(&bounded);
    assert!(
        bounded.body.contains("timeout"),
        "bounded mode still kills the same stub: {}",
        bounded.body
    );

    let response = agent_response(&external_agent_unbounded(script), &late, &request);
    assert_eq!(response.kind, MessageKind::Response);
    assert_eq!(response.body, "late but done");
}

#[test]
fn external_agent_json_adapter_excludes_streaming_chatter() {
    let participant = external_agent_with_output(
        "stream",
        OutputAdapter::Json { result_key: "result".to_string() },
        Span::from_secs(5),
    );
    let stdout = b"[tool] reading files\n\
        [step] editing notes.md\n\
        {\"type\":\"result\",\"result\":\"edited notes.md and committed\"}\n";

    let response = agent_response(
        &participant,
        &child(stdout, b"", 0),
        &request_with_body("m-req-1", "please edit notes.md"),
    );

    assert_eq!(response.kind, MessageKind::Response);
    assert_eq!(response.body, "edited notes.md and committed");
    assert!(
        !response.body.contains("[tool]") && !response.body.contains("[step]"),
        "streaming chatter must be excluded from the reply body: {}",
        response.body
    );
    assert_eq!(response.in_reply_to.as_deref(), Some("m-req-1"));
    assert!(
        response.exchange.is_none(),
        "an agent run is not one provider call, so it nests no record"
    );
}

#[test]
fn external_agent_json_adapter_synthesizes_error_on_unextractable_result() {
    let participant = external_agent_with_output(
        "cat >/dev/null; printf '{\"result\":{\"nested\":true}}\\n'",
        OutputAdapter::Json { result_key: "result".to_string() },
        Span::from_secs(5),
    );
    let response = agent_response(
        &participant,
        &child(b"{\"result\":{\"nested\":true}}\n", b"", 0),
        &request_with_body("m-req-1", "go"),
    );
    assert_synthesized_error(&response);
    assert!(
        response.body.contains("not a string"),
        "body names the extraction failure: {}",
        response.body
    );
}

// -- Capture ---------------------------------------------------------------------

#[test]
fn capture_child_output_returns_stderr_on_success() {
    let spec = sh("cat >/dev/null; echo OUT; echo ERR >&2", b"", Some(Span::from_secs(5)));
    let (stdout, stderr) = capture(&spec, &child(b"OUT\n", b"ERR\n", 0)).expect("exits 0");
    assert_eq!(stdout.trim(), "OUT");
    assert_eq!(stderr.trim(), "ERR");
}

#[test]
fn capture_child_output_folds_stderr_on_failure() {
    let spec = sh("cat >/dev/null; echo BOOM >&2; exit 1", b"", Some(Span::from_secs(5)));
    let err = capture(&spec, &child(b"", b"BOOM\n", 1)).unwrap_err();
    assert!(
        err.to_text().contains("BOOM"),
        "transport error includes stderr: {}",
        err.to_text()
    );
}

#[test]
fn capture_child_output_folds_stderr_on_timeout() {
    let spec = sh(
        "cat >/dev/null; echo TIMEOUT-DIAG >&2; sleep 1 2>/dev/null &",
        b"",
        Some(Span::from_millis(150)),
    );
    let err = capture(&spec, &slow_child(b"", b"TIMEOUT-DIAG\n", 1_000)).unwrap_err();
    assert!(
        err.to_text().contains("read timeout"),
        "failure is reported as a timeout: {}",
        err.to_text()
    );
    assert!(
        err.to_text().contains("TIMEOUT-DIAG"),
        "timeout error includes stderr: {}",
        err.to_text()
    );
}

#[test]
fn capture_times_out_on_a_child_that_does_not_take_in_its_payload() {
    let payload = vec![b'x'; 1_048_576];
    let stuck = FakeChild { takes_in: 65_536, ..slow_child(b"", b"", 30_000) };
    let err = capture(&sh("sleep 30", &payload, Some(Span::from_millis(150))), &stuck).unwrap_err();
    assert_eq!(
        err,
        BatonError::Transport("child process exceeded the 150ms read timeout".to_string())
    );
    // One that exits without reading breaks the pipe instead.
    let gone = FakeChild { takes_in: 65_536, ..child(b"", b"no input wanted\n", 0) };
    let err = capture(&sh("true", &payload, Some(Span::from_millis(150))), &gone).unwrap_err();
    assert_eq!(
        err,
        BatonError::Io(
            "could not write to child stdin: Broken pipe (os error 32): no input wanted"
                .to_string()
        )
    );
}

#[test]
fn capture_waits_for_a_child_that_prints_first_and_reads_slowly() {
    let payload = vec![b'x'; 1_048_576];
    let slow = FakeChild { prints_first: true, ..slow_child(b"done", b"", 30_000) };
    let spec = sh("printf done; exec >&-; slowly", &payload, Some(Span::from_millis(150)));
    assert_eq!(capture(&spec, &slow), Ok(("done".to_string(), String::new())));
}

#[test]
fn capture_child_output_truncates_large_stderr() {
    let spec = sh("cat >/dev/null; fill >&2", b"", Some(Span::from_secs(10)));
    let written = vec![b'X'; 1024 * 1100];
    let (_, stderr) = capture(&spec, &child(b"", &written, 0)).expect("exits 0");
    assert!(
        stderr.ends_with("[truncated at 1 MiB]"),
        "expected truncation marker, got tail: ...{}",
        &stderr[stderr.len().saturating_sub(40)..]
    );
    assert!(
        stderr.len() <= MAX_STDERR_BYTES + 30,
        "stderr should be near the cap, got {} bytes",
        stderr.len()
    );
}

fn overfull(tail: &[u8]) -> Vec<u8> {
    let mut written = b"DROPPED-HEAD".to_vec();
    written.extend(vec![b'X'; 1024 * (MAX_STDOUT_BYTES / 1024 + 1)]);
    written.extend(tail);
    written
}

#[test]
fn capture_child_output_truncates_stdout_to_tail() {
    let spec = sh("cat >/dev/null; fill", b"", Some(Span::from_secs(10)));
    let (stdout, _) =
        capture(&spec, &child(&overfull(b"\nTAIL\n"), b"", 0)).expect("exits 0");
    assert!(
        stdout.starts_with(STDOUT_TRUNCATION_MARKER),
        "expected stdout truncation marker, got prefix: {}",
        &stdout[..stdout.len().min(100)]
    );
    assert!(
        !stdout.contains("DROPPED-HEAD"),
        "discarded stdout prefix must not be retained"
    );
    assert!(
        stdout.ends_with("TAIL\n"),
        "retained stdout tail is missing"
    );
    assert!(
        stdout.len() <= MAX_STDOUT_BYTES + STDOUT_TRUNCATION_MARKER.len(),
        "stdout should be bounded by the cap plus marker, got {} bytes",
        stdout.len()
    );
}

#[test]
fn external_agent_json_adapter_extracts_result_from_truncated_stdout() {
    let participant = external_agent_with_output(
        "fill",
        OutputAdapter::Json { result_key: "result".to_string() },
        Span::from_secs(10),
    );
    let written = overfull(b"\n{\"type\":\"result\",\"result\":\"tail result\"}\n");
    let response = agent_response(
        &participant,
        &child(&written, b"", 0),
        &request_with_body("m-req-1", "go"),
    );
    assert_eq!(response.kind, MessageKind::Response);
    assert_eq!(response.body, "tail result");
}

#[test]
fn external_agent_persists_stderr_on_success() {
    let participant = external_agent(
        "cat >/dev/null; echo diag >&2; printf 'ok'",
        Span::from_secs(5),
    )
    .with_stderr_dir("/work/tree/agent-stderr".to_string());
    let request = request_with_body("m-req-1", "go");
    let captured = capture(&participant.child_spec(&request), &child(b"ok", b"diag\n", 0));

    let record = participant.turn_stderr(&request, &captured).expect("stderr file exists");
    assert_eq!(record.dir, "/work/tree/agent-stderr");
    assert_eq!(record.file_name, "m-req-1.stderr");
    assert_eq!(record.text.trim(), "diag");

    let response = participant.respond(&request, captured, NOW_MS, &mut ResponseSeq::new());
    assert_eq!(response.kind, MessageKind::Response);
    assert_eq!(response.body, "ok");
}

#[test]
fn external_agent_no_stderr_dir_is_noop() {
    let participant = external_agent(
        "cat >/dev/null; echo diag >&2; printf 'ok'",
        Span::from_secs(5),
    );
    let request = request_with_body("m-req-1", "go");
    let captured = capture(&participant.child_spec(&request), &child(b"ok", b"diag\n", 0));
    assert_eq!(participant.turn_stderr(&request, &captured), None);
    let response = participant.respond(&request, captured, NOW_MS, &mut ResponseSeq::new());
    assert_eq!(response.kind, MessageKind::Response);
}

// -- Batches -----------------------------------------------------------------------

#[test]
fn external_agent_respond_batch_body_mode_single_matches_respond_shape() {
    let script = "cat > seen.txt; printf 'edited seen.txt'";
    let request = request_with_body("m-req-1", "please edit seen.txt");
    let edited = child(b"edited seen.txt", b"", 0);

    let via_respond = external_agent(script, Span::from_secs(5));
    let direct = agent_response(&via_respond, &edited, &request);

    let via_batch = external_agent(script, Span::from_secs(5));
    let requests = std::slice::from_ref(&request);
    let responses = batch_responses(&via_batch, &edited, requests);

    assert_eq!(responses.len(), 1);
    let batched = &responses[0];
    assert_eq!(batched.kind, direct.kind);
    assert_eq!(batched.body, direct.body);
    assert_eq!(batched.conversation_id, direct.conversation_id);
    assert_eq!(batched.from, direct.from);
    assert_eq!(batched.to, direct.to);
    assert_eq!(batched.in_reply_to, direct.in_reply_to);
    assert_eq!(batch_spec(&via_batch, requests).payload, b"please edit seen.txt");
    assert_eq!(via_respond.child_spec(&request).payload, b"please edit seen.txt");
}

#[test]
fn external_agent_respond_batch_body_mode_stamps_batch_size_one() {
    let participant = external_agent("echo", Span::from_secs(5));
    let request = request_with_body("m-req-1", "go");
    let requests = std::slice::from_ref(&request);

    let printed = echo_batch_env(&environment(&batch_spec(&participant, requests), &[]));
    let responses = batch_responses(&participant, &child(printed.as_bytes(), b"", 0), requests);

    assert_eq!(responses.len(), 1);
    assert_eq!(responses[0].body, "MESSAGE_ID=[m-req-1]\nBATCH_SIZE=[1]\n");
}

#[test]
fn external_agent_respond_batch_json_mode_stdin_shape_and_order() {
    let participant = external_agent("cat > stdin.json; printf 'handled'", Span::from_secs(5))
        .with_input_mode(AgentInputMode::BatchJson);
    let requests = vec![
        request_with_body("m-req-1", "first"),
        request_with_body("m-req-2", "second"),
        request_with_body("m-req-3", "third"),
    ];

    let responses = batch_responses(&participant, &child(b"handled", b"", 0), &requests);

    assert_eq!(responses.len(), 3);
    for (request, response) in requests.iter().zip(&responses) {
        assert_eq!(response.body, "handled");
        assert_eq!(response.in_reply_to.as_deref(), Some(request.message_id.as_str()));
    }

    let stdin_seen = batch_spec(&participant, &requests).payload;
    let decoded: serde_json::Value =
        serde_json::from_slice(&stdin_seen).expect("stdin is valid JSON");
    let batch = decoded
        .get("batch")
        .and_then(|v| v.as_array())
        .expect("stdin has a `batch` array");
    assert_eq!(batch.len(), 3);
    let ids: Vec<&str> = batch
        .iter()
        .map(|entry| entry.get("message_id").and_then(|v| v.as_str()).unwrap())
        .collect();
    assert_eq!(ids, vec!["m-req-1", "m-req-2", "m-req-3"]);
}

#[test]
fn external_agent_respond_batch_env_sourced_from_last_member() {
    let participant = external_agent("echo", Span::from_secs(5))
        .with_input_mode(AgentInputMode::BatchJson);
    let requests = vec![
        request_with_body("m-req-1", "first"),
        request_with_body("m-req-2", "second"),
    ];

    let printed = echo_batch_env(&environment(&batch_spec(&participant, &requests), &[]));
    let responses = batch_responses(&participant, &child(printed.as_bytes(), b"", 0), &requests);

    assert_eq!(responses.len(), 2);
    assert_eq!(responses[0].body, "MESSAGE_ID=[m-req-2]\nBATCH_SIZE=[2]\n");
    assert_eq!(responses[1].body, responses[0].body);
}

#[test]
fn external_agent_respond_batch_fans_out_synthesized_error_to_every_member() {
    let participant = external_agent("cat >/dev/null; exit 1", Span::from_secs(5))
        .with_input_mode(AgentInputMode::BatchJson);
    let requests = vec![
        request_with_body("m-req-1", "first"),
        request_with_body("m-req-2", "second"),
        request_with_body("m-req-3", "third"),
    ];

    let responses = batch_responses(&participant, &child(b"", b"", 1), &requests);

    assert_eq!(responses.len(), 3);
    for (request, response) in requests.iter().zip(&responses) {
        assert_eq!(response.kind, MessageKind::Error);
        assert_eq!(response.conversation_id, "conv-42");
        assert_eq!(response.in_reply_to.as_deref(), Some(request.message_id.as_str()));
        assert_eq!(response.from, "agent-b");
        assert_eq!(response.to, "agent-a");
        assert!(response.exchange.is_none(), "no nested record on a machinery failure");
    }
}

#[test]
fn batch_that_cannot_be_encoded_is_a_decode_failure() {
    let participant = external_agent("cat", Span::from_secs(5))
        .with_input_mode(AgentInputMode::BatchJson);
    let requests = vec![request_with_body("m-req-1", "first"), request_with_body("m-req-2", "x")];
    let err = participant
        .batch_child_spec(&requests, Err("recursion limit".to_string()))
        .unwrap_err();
    assert_eq!(
        err,
        BatonError::Decode("could not encode batch-json stdin: recursion limit".to_string())
    );
    let stamps = [NOW_MS, NOW_MS];
    let responses =
        participant.respond_batch(&requests, Err(err), &stamps, &mut ResponseSeq::new());
    let ids: Vec<&str> = responses.iter().map(|reply| reply.message_id.as_str()).collect();
    assert_eq!(ids, vec!["conv-42-r-1700000000500-0", "conv-42-r-1700000000500-1"]);
    for response in &responses {
        assert_eq!(response.kind, MessageKind::Error);
        assert_eq!(
            response.body,
            "decode error: could not encode batch-json stdin: recursion limit"
        );
    }
    // The body of a single request needs no encoding.
    let bare = external_agent("cat", Span::from_secs(5));
    let spec = bare.batch_child_spec(&requests[..1], Err("unused".to_string())).unwrap();
    assert_eq!(spec.payload, b"first");
}

#[test]
fn batch_stderr_goes_by_the_last_member() {
    let participant = external_agent("cat", Span::from_secs(5))
        .with_stderr_dir("/diag".to_string());
    let requests = vec![
        request_with_body("m-req-1", "first"),
        request_with_body("../m req:2", "second"),
    ];
    let captured: Captured = Ok(("ok".to_string(), "noise".to_string()));
    assert_eq!(
        participant.batch_stderr(&requests, &captured),
        Some(StderrRecord {
            dir: "/diag".to_string(),
            file_name: "___m_req_2.stderr".to_string(),
            text: "noise".to_string(),
        })
    );
    let quiet: Captured = Ok(("ok".to_string(), " \n".to_string()));
    assert_eq!(participant.batch_stderr(&requests, &quiet), None);
    let failed: Captured = Err(BatonError::Transport("gone".to_string()));
    assert_eq!(participant.batch_stderr(&requests, &failed), None);
    // Letters and digits of every script stay.
    let record = participant.persist_stderr("été-٣_∂", "noise").expect("kept");
    assert_eq!(record.file_name, "été-٣__.stderr");
}

// -- Mailboxes -----------------------------------------------------------------------

fn peer_reply(request: &MessageEnvelope, kind: MessageKind, nested: bool) -> MessageEnvelope {
    let mut reply = envelope(
        "peer-reply-id",
        &request.conversation_id,
        &request.to,
        &request.from,
        kind,
        "pong",
        request.ts_ms + 1,
    );
    reply.in_reply_to = Some(request.message_id.clone());
    if nested {
        reply.exchange = Some(WrappedExchange::new(Exchange {
            request: RequestRecord {
                ts_ms: request.ts_ms,
                model: "peer-model".to_string(),
                base_url: "https://peer".to_string(),
                prompt: request.body.clone(),
                session_id: None,
                turn_index: None,
            },
            outcome: Outcome::Success {
                ts_ms: request.ts_ms + 1,
                duration_ms: 1,
                reply: "pong".to_string(),
                input_tokens: Some(3),
                output_tokens: Some(5),
                stop_reason: None,
            },
        }));
    }
    reply
}

/// Two directories of a mailbox, and a clock that only sleeping moves.
struct FakeMailbox {
    pending: Vec<String>,
    replies: BTreeMap<String, MessageEnvelope>,
    clock: u64,
    naps: Vec<u128>,
    refuses: bool,
}

impl FakeMailbox {
    fn new() -> Self {
        FakeMailbox {
            pending: vec![],
            replies: BTreeMap::new(),
            clock: 0,
            naps: vec![],
            refuses: false,
        }
    }

    fn seed(&mut self, request_id: &str, reply: &MessageEnvelope) {
        self.replies.insert(request_id.to_string(), reply.clone());
    }

    fn respond(
        &mut self,
        participant: &MailboxParticipant,
        request: &MessageEnvelope,
    ) -> MessageEnvelope {
        let mut turn = participant.start(request);
        loop {
            let event = match turn.action() {
                MailboxAction::Deliver { inbox } => {
                    if self.refuses {
                        MailboxEvent::Failed(BatonError::Io("could not deliver".to_string()))
                    } else {
                        self.pending.push(format!("{inbox}/pending/{}.json", request.message_id));
                        MailboxEvent::Delivered
                    }
                }
                MailboxAction::Claim { outbox, message_id } => {
                    assert_eq!(outbox, "outbox");
                    match self.replies.remove(&message_id) {
                        Some(reply) => MailboxEvent::Claimed(reply),
                        None => MailboxEvent::Absent { elapsed: Span::from_millis(self.clock) },
                    }
                }
                MailboxAction::Sleep(length) => {
                    self.naps.push(length.as_millis());
                    self.clock += length.as_millis() as u64;
                    MailboxEvent::Slept
                }
                MailboxAction::Nothing => break,
            };
            turn = turn.step(event);
        }
        let answer = turn.into_answer().expect("a turn with nothing left to do is finished");
        participant.respond(request, answer, NOW_MS, &mut ResponseSeq::new())
    }
}

fn mailbox(await_ms: u64, poll_ms: u64) -> MailboxParticipant {
    MailboxParticipant::new(
        "inbox".to_string(),
        "outbox".to_string(),
        Span::from_millis(await_ms),
        Span::from_millis(poll_ms),
    )
}

#[test]
fn mailbox_returns_correlated_reply_and_delivers_request() {
    let request = request_envelope();
    let reply = peer_reply(&request, MessageKind::Response, true);
    let mut host = FakeMailbox::new();
    host.seed(&request.message_id, &reply);

    let response = host.respond(&mailbox(500, 1), &request);

    assert_eq!(response, reply);
    assert!(
        host.pending.contains(&"inbox/pending/m-req-1.json".to_string()),
        "request delivered to <inbox>/pending/"
    );
}

#[test]
fn mailbox_passes_through_peer_delivered_error() {
    let request = request_envelope();
    let reply = peer_reply(&request, MessageKind::Error, true);
    let mut host = FakeMailbox::new();
    host.seed(&request.message_id, &reply);

    let response = host.respond(&mailbox(500, 1), &request);

    assert_eq!(response.kind, MessageKind::Error);
    assert!(
        response.exchange.is_some(),
        "a peer-delivered error nests the peer's record"
    );
}

#[test]
fn mailbox_synthesizes_timeout_error_when_no_reply() {
    let request = request_envelope();
    let mut host = FakeMailbox::new();

    let response = host.respond(&mailbox(10, 2), &request);

    assert_eq!(response.kind, MessageKind::Error);
    assert_eq!(response.conversation_id, "conv-42");
    assert_eq!(response.in_reply_to.as_deref(), Some("m-req-1"));
    assert_eq!(response.from, "agent-b");
    assert_eq!(response.to, "agent-a");
    assert!(
        response.exchange.is_none(),
        "a machinery/transport failure nests no record"
    );
    assert!(
        response.body.contains("timed out"),
        "body names the await-timeout: {}",
        response.body
    );
    assert_eq!(
        response.body,
        "transport error: await timed out after 10ms without a correlated reply to \"m-req-1\""
    );
    assert!(host.pending.contains(&"inbox/pending/m-req-1.json".to_string()));
    assert_eq!(host.naps, vec![2, 2, 2, 2, 2]);
}

#[test]
fn mailbox_synthesizes_error_on_mis_correlated_reply() {
    let request = request_envelope();
    let mut reply = peer_reply(&request, MessageKind::Response, true);
    reply.in_reply_to = Some("some-other-id".to_string());
    let mut host = FakeMailbox::new();
    host.seed(&request.message_id, &reply);

    let response = host.respond(&mailbox(500, 1), &request);

    assert_eq!(response.kind, MessageKind::Error);
    assert!(
        response.exchange.is_none(),
        "a mis-correlated reply is a machinery failure, nesting no record"
    );
    assert_eq!(
        response.body,
        "transport error: reply \"peer-reply-id\" has in_reply_to Some(\"some-other-id\"), \
         expected \"m-req-1\""
    );
}

#[test]
fn mailbox_names_a_missing_correlation() {
    let request = request_envelope();
    let mut reply = peer_reply(&request, MessageKind::Response, false);
    reply.in_reply_to = None;
    let mut host = FakeMailbox::new();
    host.seed(&request.message_id, &reply);
    let response = host.respond(&mailbox(500, 1), &request);
    assert_eq!(
        response.body,
        "transport error: reply \"peer-reply-id\" has in_reply_to None, expected \"m-req-1\""
    );
}

#[test]
fn mailbox_sleeps_within_its_wait_and_looks_once_without_one() {
    let request = request_envelope();
    let mut host = FakeMailbox::new();
    let response = host.respond(&mailbox(5, 2), &request);
    assert_eq!(response.kind, MessageKind::Error);
    assert_eq!(host.naps, vec![2, 2, 1]);

    // A reply that is already there is found without any wait.
    let reply = peer_reply(&request, MessageKind::Response, true);
    let mut ready = FakeMailbox::new();
    ready.seed(&request.message_id, &reply);
    assert_eq!(ready.respond(&mailbox(0, 2), &request), reply);
    assert!(ready.naps.is_empty());
}

#[test]
fn mailbox_that_refuses_the_request_is_an_error() {
    let request = request_envelope();
    let mut host = FakeMailbox::new();
    host.refuses = true;
    let response = host.respond(&mailbox(500, 1), &request);
    assert_synthesized_error(&response);
    assert_eq!(response.body, "io error: could not deliver");
}

#[test]
fn same_millisecond_responses_stay_distinct_end_to_end() {
    const TS_MS: u64 = 1_787_882_604_553;

    let mut seq = ResponseSeq::new();
    let mut reply = |body: &str| {
        MessageEnvelope::new(
            fresh_message_id("c", TS_MS, &mut seq),
            "c".to_string(),
            "agent".to_string(),
            "caller".to_string(),
            MessageKind::Error,
            body.to_string(),
            TS_MS,
        )
    };
    let first = reply("first");
    let second = reply("second");

    assert_eq!(
        (first.ts_ms, second.ts_ms),
        (TS_MS, TS_MS),
        "the pair shares a millisecond — that is the condition under test"
    );
    assert_ne!(
        first.message_id, second.message_id,
        "same-millisecond replies must not share a message_id"
    );

    // A store that is keyed by the identifier keeps both.
    let mut pending: BTreeMap<String, String> = BTreeMap::new();
    for delivered in [&first, &second] {
        pending.insert(delivered.message_id.clone(), encode(delivered));
    }
    let mut bodies: Vec<String> = pending
        .values()
        .map(|json| decode(json).expect("envelope round-trips").body)
        .collect();
    bodies.sort();
    assert_eq!(
        bodies,
        vec!["first".to_string(), "second".to_string()],
        "both replies survive delivery — neither overwrote the other"
    );
    let merged_ids: Vec<&str> = pending.keys().map(|id| id.as_str()).collect();
    let mut expected_ids = vec![first.message_id.as_str(), second.message_id.as_str()];
    expected_ids.sort_unstable();
    assert_eq!(merged_ids, expected_ids, "both turns survive the merge");
    let mut merged_bodies: Vec<String> = merged_ids
        .iter()
        .map(|id| decode(&pending[*id]).expect("envelope round-trips").body)
        .collect();
    merged_bodies.sort_unstable();
    assert_eq!(merged_bodies, vec!["first", "second"]);
}
