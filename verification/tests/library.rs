//! The functions below the participants, on exact values.

use baton::bytes::{LINE_FEED, REPLACEMENT};
use baton::capture::{
    stdout_text, StderrHead, StdoutTail, MAX_STDERR_BYTES, MAX_STDOUT_BYTES,
    STDERR_TRUNCATION_MARKER, STDOUT_TRUNCATION_MARKER,
};
use baton::child::{timeout_failure, Captured, ChildAction, ChildEvent, ChildRun, ChildSpec};
use baton::error::BatonError;
use baton::external::ExternalAgentParticipant;
use baton::mailbox::{MailboxAction, MailboxEvent, MailboxParticipant};
use baton::message::{
    correlated_reply, fresh_message_id, synthesize_error_response, MessageEnvelope, MessageKind,
    ResponseSeq,
};
use baton::output::{find_field, result_of_field, JsonField, OutputAdapter};
use baton::participant::deliver_answer;
use baton::span::Span;
use baton::subprocess::SubprocessParticipant;
use baton::text::{decimal_text, find_final_line, is_blank, trim};
use baton::windows::{
    append_windows_arg, append_windows_msvc_arg, is_windows_cmd_metachar, windows_command_tail,
};

fn request() -> MessageEnvelope {
    MessageEnvelope::new(
        "m1".to_string(),
        "conv".to_string(),
        "asker".to_string(),
        "answerer".to_string(),
        MessageKind::Request,
        "body".to_string(),
        17,
    )
}

fn spec(read_timeout: Option<Span>) -> ChildSpec {
    ChildSpec {
        program: "agent".to_string(),
        args: vec!["two words".to_string(), "50%".to_string()],
        envs: vec![],
        env_removals: vec![],
        cwd: None,
        payload: vec![],
        read_timeout,
    }
}

fn run(spec: &ChildSpec, events: Vec<ChildEvent>) -> ChildRun {
    events.into_iter().fold(ChildRun::new(spec), |run, event| run.step(event))
}

// -- Text ----------------------------------------------------------------------

#[test]
fn whitespace_is_unicodes() {
    assert!(is_blank(""));
    assert!(is_blank(" \t\r\n\u{85}\u{a0}\u{1680}\u{2003}\u{2028}\u{202f}\u{205f}\u{3000}"));
    assert!(!is_blank("\u{200b}"));
    assert!(!is_blank("\u{feff}"));
    assert!(!is_blank("  x  "));
    assert_eq!(trim("\u{3000} a b \n"), "a b");
    assert_eq!(trim(" \n "), "");
}

#[test]
fn every_character_is_classed_as_std_classes_it() {
    for c in (0..=0x10_ffffu32).filter_map(char::from_u32) {
        if is_blank(&c.to_string()) != c.is_whitespace() {
            panic!("{c:?}");
        }
    }
}

#[test]
fn final_line_is_the_last_filled_one() {
    assert_eq!(find_final_line("a\n  b c \r\n\n \t\n").as_deref(), Some("b c"));
    assert_eq!(find_final_line("only").as_deref(), Some("only"));
    assert_eq!(find_final_line("\n \n"), None);
    assert_eq!(find_final_line(""), None);
}

#[test]
fn decimal_notation_has_no_leading_zeros() {
    assert_eq!(decimal_text(0), "0");
    assert_eq!(decimal_text(1_700_000_000_000), "1700000000000");
    assert_eq!(decimal_text(u128::MAX), u128::MAX.to_string());
}

// -- Lengths of time -------------------------------------------------------------

#[test]
fn spans_are_written_as_durations_are() {
    assert_eq!(Span::from_millis(150).to_text(), "150ms");
    assert_eq!(Span::from_secs(5).to_text(), "5s");
    assert_eq!(Span::from_millis(1_500).to_text(), "1.5s");
    assert_eq!(Span::new(0, 7).to_text(), "7ns");
    assert_eq!(Span::from_secs(0).to_text(), "0ns");
}

#[test]
fn spans_are_counted_in_nanoseconds() {
    let span = Span::new(2, 999_999_999);
    assert_eq!((span.secs(), span.subsec_nanos(), span.as_millis()), (2, 999_999_999, 2_999));
    assert_eq!(span.saturating_sub(Span::new(1, 999_999_999)), Span::from_secs(1));
    assert_eq!(Span::new(3, 1).saturating_sub(Span::new(1, 2)), Span::new(1, 999_999_999));
    assert!(Span::new(1, 0).saturating_sub(Span::new(1, 1)).is_zero());
    assert_eq!(Span::new(1, 5).min(Span::new(1, 4)), Span::new(1, 4));
    assert_eq!(Span::from_millis(u64::MAX).as_millis(), u64::MAX as u128);
}

// -- Failures --------------------------------------------------------------------

#[test]
fn failures_say_what_they_are() {
    assert_eq!(BatonError::Io("a".to_string()).to_text(), "io error: a");
    assert_eq!(BatonError::Decode("b".to_string()).to_text(), "decode error: b");
    assert_eq!(BatonError::Transport("c".to_string()).to_text(), "transport error: c");
}

// -- Identifiers and replies -------------------------------------------------------

#[test]
fn identifiers_carry_the_counter() {
    let mut seq = ResponseSeq::new();
    assert_eq!(fresh_message_id("conv", 17, &mut seq), "conv-r-17-0");
    assert_eq!(fresh_message_id("conv", 17, &mut seq), "conv-r-17-1");
    assert_eq!(fresh_message_id("a-r-1", 2, &mut seq), "a-r-1-r-2-2");
    assert_eq!(fresh_message_id("a", 1, &mut seq), "a-r-1-3");
}

#[test]
fn a_reply_to_a_reply_goes_back() {
    let mut seq = ResponseSeq::new();
    let asked = request();
    let reply = correlated_reply(&asked, MessageKind::Response, "yes".to_string(), 18, &mut seq);
    assert_eq!(reply.message_id, "conv-r-18-0");
    assert_eq!((reply.from.as_str(), reply.to.as_str()), ("answerer", "asker"));
    assert_eq!(reply.in_reply_to.as_deref(), Some("m1"));
    let back = correlated_reply(&reply, MessageKind::Done, "ok".to_string(), 19, &mut seq);
    assert_eq!((back.from.as_str(), back.to.as_str()), ("asker", "answerer"));
    assert_eq!(back.in_reply_to.as_deref(), Some("conv-r-18-0"));
    assert_eq!(back.conversation_id, "conv");
}

#[test]
fn an_answer_is_delivered_as_it_is_and_draws_no_number() {
    let mut seq = ResponseSeq::new();
    let mut answer = request();
    answer.kind = MessageKind::Error;
    assert_eq!(deliver_answer(&request(), Ok(answer.clone()), 20, &mut seq), answer);
    let failed = deliver_answer(&request(), Err(BatonError::Io("no".to_string())), 20, &mut seq);
    assert_eq!(failed.message_id, "conv-r-20-0");
    assert_eq!(failed.kind, MessageKind::Error);
    assert_eq!(failed.body, "io error: no");
    assert_eq!(failed.exchange, None);
    let direct = synthesize_error_response(&request(), "no", 20, &mut seq);
    assert_eq!(direct.message_id, "conv-r-20-1");
    assert_eq!(direct.body, "no");
}

#[test]
fn kinds_have_their_wire_names() {
    let names: Vec<&str> = [
        MessageKind::Request,
        MessageKind::Response,
        MessageKind::Done,
        MessageKind::Error,
        MessageKind::Notify,
    ]
    .iter()
    .map(|kind| kind.as_wire_str())
    .collect();
    assert_eq!(names, vec!["request", "response", "done", "error", "notify"]);
}

// -- Bytes and buffers -------------------------------------------------------------

#[test]
fn each_line_of_output_is_read_by_itself() {
    assert_eq!(LINE_FEED, b'\n');
    assert_eq!(stdout_text("grüße\n∀".as_bytes()), "grüße\n∀");
    assert_eq!(stdout_text(b"\xe2\x88\nok\xff\n\xc3\xbc"), "\u{fffd}\nok\u{fffd}\nü");
    assert_eq!(stdout_text(b"\xe2\x88"), "\u{fffd}");
    assert_eq!(stdout_text(b"ok\xff"), "ok\u{fffd}");
    assert_eq!(REPLACEMENT, '\u{fffd}');
    for byte in 0x80..=0xffu8 {
        assert_eq!(stdout_text(&[byte]), "\u{fffd}");
        assert_eq!(stdout_text(&[b'a', byte]), "a\u{fffd}");
    }
    assert_eq!(stdout_text(b"Hello \xf0\x90\x80World"), "Hello \u{fffd}World");
    assert_eq!(stdout_text(b"\xed\xa0\x80").chars().next(), Some('\u{fffd}'));
}

#[test]
fn output_of_exactly_the_bound_is_whole() {
    let mut whole = StdoutTail::new();
    whole.push(&vec![b'x'; MAX_STDOUT_BYTES]);
    assert_eq!(whole.finish(), vec![b'x'; MAX_STDOUT_BYTES]);
    whole.push(b"y");
    let kept = whole.finish();
    assert_eq!(kept.len(), STDOUT_TRUNCATION_MARKER.len() + MAX_STDOUT_BYTES);
    assert!(kept.starts_with(STDOUT_TRUNCATION_MARKER.as_bytes()));
    assert!(kept.ends_with(b"xxy"));
}

#[test]
fn standard_error_of_exactly_the_bound_is_whole() {
    let mut head = StderrHead::new();
    head.push(&vec![b'x'; MAX_STDERR_BYTES - 1]);
    head.push(b"y");
    assert_eq!(head.finish().len(), MAX_STDERR_BYTES);
    assert!(head.finish().ends_with("xy"));
    head.push(b"z");
    let text = head.finish();
    assert_eq!(text.len(), MAX_STDERR_BYTES + STDERR_TRUNCATION_MARKER.len());
    assert!(text.ends_with("xy\n[truncated at 1 MiB]"));
}

#[test]
fn empty_buffers_hand_on_nothing() {
    assert!(StdoutTail::new().finish().is_empty());
    assert_eq!(StderrHead::new().finish(), "");
}

#[test]
fn a_result_is_found_behind_a_character_that_was_cut() {
    // One byte too many is written: the first kept one is the second half of "ü".
    let line = "{\"result\":\"done\"}";
    let mut written = "ü".as_bytes().to_vec();
    written.extend(vec![b'x'; MAX_STDOUT_BYTES - 3 - line.len()]);
    written.push(b'\n');
    written.extend(line.as_bytes());
    written.push(b'\n');
    assert_eq!(written.len(), MAX_STDOUT_BYTES + 1);
    let mut tail = StdoutTail::new();
    tail.push(&written);
    let text = stdout_text(&tail.finish());
    assert!(text.contains('\u{fffd}'));
    let adapter = OutputAdapter::Json { result_key: "result".to_string() };
    assert_eq!(adapter.extract(&text), Ok("done".to_string()));
}

// -- Output adapters ---------------------------------------------------------------

#[test]
fn raw_output_is_the_result() {
    let raw = OutputAdapter::Raw;
    assert_eq!(raw.extract(" a\nb "), Ok(" a\nb ".to_string()));
    assert_eq!(raw.reply_body(" a\nb "), Ok(" a\nb ".to_string()));
    assert_eq!(
        raw.reply_body(" \n"),
        Err(BatonError::Decode("external agent produced no output".to_string()))
    );
}

#[test]
fn json_results_must_be_strings() {
    let adapter = OutputAdapter::Json { result_key: "result".to_string() };
    let failure = |stdout: &str| match adapter.extract(stdout) {
        Err(BatonError::Decode(text)) => text,
        other => panic!("{other:?}"),
    };
    assert_eq!(adapter.extract("noise\n {\"result\":\"a\\u0041\"} \n\n"), Ok("aA".to_string()));
    assert_eq!(
        failure(" \n "),
        "external agent produced no output line to extract a JSON result from"
    );
    assert_eq!(
        failure("{\"result\":3}"),
        "external agent's JSON result field \"result\" is not a string"
    );
    assert_eq!(
        failure("{\"answer\":\"x\"}"),
        "external agent's JSON output has no \"result\" result field"
    );
    assert_eq!(
        failure("[\"result\"]"),
        "external agent's JSON output has no \"result\" result field"
    );
    assert!(failure("{\"result\":\"x\"}\nplain")
        .starts_with("external agent's final output line is not a JSON object: expected"));
    assert_eq!(
        adapter.reply_body("{\"result\":\"  \"}"),
        Err(BatonError::Decode("external agent produced an empty result".to_string()))
    );
}

#[test]
fn fields_are_told_apart() {
    assert_eq!(find_field("{\"a\":\"b\"}", "a"), Ok(JsonField::Text("b".to_string())));
    assert_eq!(find_field("{\"a\":null}", "a"), Ok(JsonField::NotText));
    assert_eq!(find_field("{}", "a"), Ok(JsonField::Missing));
    assert_eq!(find_field("\"a\"", "a"), Ok(JsonField::Missing));
    assert!(find_field("{", "a").is_err());
    assert_eq!(result_of_field(Ok(JsonField::Text("b".to_string())), "a"), Ok("b".to_string()));
    assert_eq!(
        result_of_field(Ok(JsonField::NotText), "a\"b"),
        Err(BatonError::Decode(
            "external agent's JSON result field \"a\\\"b\" is not a string".to_string()
        ))
    );
    assert_eq!(
        result_of_field(Err("bad".to_string()), "a"),
        Err(BatonError::Decode(
            "external agent's final output line is not a JSON object: bad".to_string()
        ))
    );
}

// -- Children ------------------------------------------------------------------------

fn failure_of(spec: &ChildSpec, events: Vec<ChildEvent>) -> BatonError {
    match run(spec, events).into_captured() {
        Some(Err(err)) => err,
        other => panic!("{other:?}"),
    }
}

#[test]
fn a_run_asks_for_its_actions_in_order() {
    let bounded = spec(Some(Span::from_secs(3)));
    let mut run = ChildRun::new(&bounded);
    assert!(matches!(run.action(), ChildAction::Spawn));
    run = run.step(ChildEvent::Spawned);
    match run.action() {
        ChildAction::WritePayload(limit) => assert_eq!(limit, Some(Span::from_secs(3))),
        other => panic!("{other:?}"),
    }
    run = run.step(ChildEvent::PayloadWritten);
    match run.action() {
        ChildAction::AwaitStdout(limit) => assert_eq!(limit, Some(Span::from_secs(3))),
        other => panic!("{other:?}"),
    }
    run = run.step(ChildEvent::StdoutClosed(b"out".to_vec()));
    assert!(matches!(run.action(), ChildAction::Reap));
    run = run.step(ChildEvent::Exited { success: true, status: "exit status: 0".to_string() });
    match run.action() {
        ChildAction::CollectStderr(limit) => assert_eq!(limit, Span::from_secs(5)),
        other => panic!("{other:?}"),
    }
    run = run.step(ChildEvent::StderrCollected("err".to_string()));
    assert!(matches!(run.action(), ChildAction::Nothing));
    let captured: Captured = run.into_captured().expect("finished");
    assert_eq!(captured, Ok(("out".to_string(), "err".to_string())));
}

#[test]
fn a_run_that_is_not_finished_hands_back_nothing() {
    assert!(run(&spec(None), vec![ChildEvent::Spawned]).into_captured().is_none());
}

#[test]
fn every_fault_is_reported_with_standard_error() {
    let bounded = spec(Some(Span::from_millis(1_500)));
    let stopped = |fault: ChildEvent, stderr: &str| {
        vec![
            ChildEvent::Spawned,
            ChildEvent::PayloadWritten,
            fault,
            ChildEvent::Killed,
            ChildEvent::StderrCollected(stderr.to_string()),
        ]
    };
    assert_eq!(
        failure_of(&bounded, vec![ChildEvent::SpawnFailed("absent".to_string())]),
        BatonError::Io("could not spawn child process \"agent\": absent".to_string())
    );
    assert_eq!(
        failure_of(
            &bounded,
            vec![
                ChildEvent::Spawned,
                ChildEvent::WriteFailed("broken pipe".to_string()),
                ChildEvent::Killed,
                ChildEvent::StderrCollected(" why \n".to_string()),
            ]
        ),
        BatonError::Io("could not write to child stdin: broken pipe: why".to_string())
    );
    assert_eq!(
        failure_of(&bounded, stopped(ChildEvent::ReadFailed("eio".to_string()), "")),
        BatonError::Io("could not read child stdout: eio".to_string())
    );
    assert_eq!(
        failure_of(&bounded, stopped(ChildEvent::TimedOut, "busy")),
        BatonError::Transport("child process exceeded the 1.5s read timeout: busy".to_string())
    );
    assert_eq!(
        failure_of(&bounded, stopped(ChildEvent::ReaderLost, " ")),
        BatonError::Transport(
            "child process stdout reader terminated unexpectedly".to_string()
        )
    );
    assert_eq!(
        failure_of(
            &bounded,
            vec![
                ChildEvent::Spawned,
                ChildEvent::PayloadWritten,
                ChildEvent::StdoutClosed(b"partial".to_vec()),
                ChildEvent::Exited { success: false, status: "signal: 9 (SIGKILL)".to_string() },
                ChildEvent::StderrCollected("killed".to_string()),
            ]
        ),
        BatonError::Transport(
            "child process exited with signal: 9 (SIGKILL): killed".to_string()
        )
    );
    assert_eq!(
        failure_of(
            &bounded,
            vec![
                ChildEvent::Spawned,
                ChildEvent::PayloadWritten,
                ChildEvent::StdoutClosed(vec![]),
                ChildEvent::ReapFailed("no child".to_string()),
            ]
        ),
        BatonError::Io("could not reap child process: no child".to_string())
    );
    assert_eq!(
        timeout_failure("150ms", "x"),
        BatonError::Transport("child process exceeded the 150ms read timeout: x".to_string())
    );
}

#[test]
fn a_program_is_shown_as_it_was_named() {
    let named = ChildRun::shown_as(&spec(None), "<agent>".to_string())
        .step(ChildEvent::SpawnFailed("absent".to_string()));
    assert_eq!(
        named.into_captured(),
        Some(Err(BatonError::Io("could not spawn child process <agent>: absent".to_string())))
    );
}

#[test]
fn a_run_without_a_limit_does_not_time_out() {
    let waiting = run(
        &spec(None),
        vec![ChildEvent::Spawned, ChildEvent::PayloadWritten, ChildEvent::TimedOut],
    );
    match waiting.action() {
        ChildAction::AwaitStdout(limit) => assert_eq!(limit, None),
        other => panic!("{other:?}"),
    }
}

#[test]
fn a_run_that_times_out_is_killed() {
    let bounded = spec(Some(Span::from_secs(1)));
    let unread = run(&bounded, vec![ChildEvent::Spawned, ChildEvent::TimedOut]);
    assert!(matches!(unread.action(), ChildAction::KillAndReap));
    let late = run(
        &bounded,
        vec![ChildEvent::Spawned, ChildEvent::PayloadWritten, ChildEvent::TimedOut],
    );
    assert!(matches!(late.action(), ChildAction::KillAndReap));
    let endless = run(&spec(None), vec![ChildEvent::Spawned, ChildEvent::TimedOut]);
    match endless.action() {
        ChildAction::WritePayload(limit) => assert_eq!(limit, None),
        other => panic!("{other:?}"),
    }
}

#[test]
fn a_run_whose_output_is_complete_is_not_timed() {
    let fed = run(
        &spec(Some(Span::from_millis(150))),
        vec![
            ChildEvent::Spawned,
            ChildEvent::StdoutClosed(b"early".to_vec()),
            ChildEvent::TimedOut,
        ],
    );
    assert!(matches!(fed.action(), ChildAction::FinishPayload));
    let written = fed.step(ChildEvent::PayloadWritten);
    assert!(matches!(written.action(), ChildAction::Reap));
    let captured = written
        .step(ChildEvent::Exited { success: true, status: "exit status: 0".to_string() })
        .step(ChildEvent::StderrCollected(String::new()))
        .into_captured();
    assert_eq!(captured, Some(Ok(("early".to_string(), String::new()))));

    assert_eq!(
        failure_of(
            &spec(None),
            vec![
                ChildEvent::Spawned,
                ChildEvent::StdoutClosed(b"early".to_vec()),
                ChildEvent::WriteFailed("broken pipe".to_string()),
                ChildEvent::Killed,
                ChildEvent::StderrCollected(String::new()),
            ]
        ),
        BatonError::Io("could not write to child stdin: broken pipe".to_string())
    );
}

#[test]
fn events_out_of_turn_change_nothing() {
    let fresh = run(&spec(None), vec![ChildEvent::Killed, ChildEvent::PayloadWritten]);
    assert!(matches!(fresh.action(), ChildAction::Spawn));
}

#[test]
fn a_child_is_started_through_cmd_by_its_tail() {
    assert_eq!(spec(None).windows_tail(), "\"agent \"two words\" ^\"50^%^\"\"");
}

// -- Command lines ---------------------------------------------------------------------

fn windows_arg(token: &str) -> String {
    let mut line = String::new();
    append_windows_arg(&mut line, token);
    line
}

fn msvc_arg(token: &str) -> String {
    let mut line = String::new();
    append_windows_msvc_arg(&mut line, token);
    line
}

#[test]
fn metacharacters_are_escaped_in_their_argument() {
    for c in "&|<>^%()!".chars() {
        assert!(is_windows_cmd_metachar(c));
    }
    for c in "a\"\\ '`$*?~=;,".chars() {
        assert!(!is_windows_cmd_metachar(c));
    }
    assert_eq!(windows_arg(""), "\"\"");
    assert_eq!(windows_arg("a&b"), "^\"a^&b^\"");
    assert_eq!(windows_arg("^"), "^\"^^^\"");
    assert_eq!(windows_arg("a\\&\\"), "^\"a\\^&\\\\^\"");
    assert_eq!(windows_arg("%\\\"x"), "^\"^%\\\\\\^\"x^\"");
    assert_eq!(
        windows_arg("meta & | ^ %BATON_EXPAND_ME% < > ( )"),
        "^\"meta ^& ^| ^^ ^%BATON_EXPAND_ME^% ^< ^> ^( ^)^\""
    );
}

#[test]
fn quoting_doubles_backslashes_only_before_quotes() {
    assert_eq!(msvc_arg(""), "");
    assert_eq!(msvc_arg("a\\b"), "a\\b");
    assert_eq!(msvc_arg("a\\\\b c"), "\"a\\\\b c\"");
    assert_eq!(msvc_arg("tab\there\\\\"), "\"tab\there\\\\\\\\\"");
    assert_eq!(msvc_arg("\""), "\"\\\"\"");
}

#[test]
fn a_command_tail_has_an_outer_pair_of_quotes() {
    assert_eq!(
        windows_command_tail(
            "C:\\Program Files\\agent.cmd",
            &vec!["argument with space".to_string(), "".to_string(), "x|y".to_string()]
        ),
        "\"\"C:\\Program Files\\agent.cmd\" \"argument with space\" \"\" ^\"x^|y^\"\""
    );
    assert_eq!(windows_command_tail("agent", &vec![]), "\"agent\"");
}

/// The text that `cmd` hands on of a line, which drops each caret outside quotes.
fn read_by_cmd(line: &str) -> String {
    let mut handed = String::new();
    let mut in_quotes = false;
    let mut escaped = false;
    for c in line.chars() {
        if escaped {
            handed.push(c);
            escaped = false;
        } else if c == '^' && !in_quotes {
            escaped = true;
        } else {
            if c == '"' {
                in_quotes = !in_quotes;
            }
            handed.push(c);
        }
    }
    handed
}

/// The arguments that a program finds in a command line.
fn read_by_program(line: &str) -> Vec<String> {
    let mut args = vec![];
    let mut arg = String::new();
    let mut begun = false;
    let mut in_quotes = false;
    let mut pending = 0;
    for c in line.chars() {
        if c == '\\' {
            begun = true;
            pending += 1;
            continue;
        }
        if c == '"' {
            begun = true;
            arg.push_str(&"\\".repeat(pending / 2));
            if pending % 2 == 1 {
                arg.push('"');
            } else {
                in_quotes = !in_quotes;
            }
            pending = 0;
            continue;
        }
        arg.push_str(&"\\".repeat(pending));
        pending = 0;
        if !in_quotes && (c == ' ' || c == '\t') {
            if begun {
                args.push(std::mem::take(&mut arg));
            }
            begun = false;
        } else {
            begun = true;
            arg.push(c);
        }
    }
    arg.push_str(&"\\".repeat(pending));
    if begun {
        args.push(arg);
    }
    args
}

#[test]
fn arguments_survive_both_readers() {
    let tokens = vec![
        "agent dir\\run.cmd".to_string(),
        "".to_string(),
        "meta & | ^ %BATON_EXPAND_ME% < > ( )".to_string(),
        "C:\\My Dir\\".to_string(),
        "say \"hi\" & go".to_string(),
        "\\\\\"x\"".to_string(),
        "100%\\".to_string(),
    ];
    let tail = windows_command_tail(&tokens[0], &tokens[1..].to_vec());
    let line = &tail[1..tail.len() - 1];
    assert_eq!(read_by_program(&read_by_cmd(line)), tokens);
    for token in &tokens {
        let alone = windows_command_tail(token, &vec![]);
        let read = read_by_program(&read_by_cmd(&alone[1..alone.len() - 1]));
        assert_eq!(read, vec![token.clone()]);
    }
}

/// The arguments that the shim of an agent finds.
fn shim_arguments(spec: &ChildSpec) -> Vec<String> {
    let tail = spec.windows_tail();
    read_by_program(&read_by_cmd(&tail[1..tail.len() - 1]))
}

fn shim_agent(program: &str, argument: &str, envs: Vec<(String, String)>) -> ExternalAgentParticipant {
    ExternalAgentParticipant::new(
        program.to_string(),
        vec![argument.to_string()],
        envs,
        "C:\\tree".to_string(),
        OutputAdapter::Raw,
        Some(Span::from_secs(5)),
    )
}

fn request_with_body(id: &str, body: &str) -> MessageEnvelope {
    let mut asked = request();
    asked.message_id = id.to_string();
    asked.body = body.to_string();
    asked
}

#[test]
fn external_agent_resolves_cmd_shim_by_command_name() {
    let agent = shim_agent("baton-test-agent", "agent argument", vec![]);
    let asked = request_with_body("m-req-1", "shim request");
    let spec = agent.child_spec(&asked);
    assert_eq!(spec.windows_tail(), "\"baton-test-agent \"agent argument\"\"");
    assert_eq!(shim_arguments(&spec), vec!["baton-test-agent", "agent argument"]);
    assert_eq!(spec.payload, b"shim request");
    let captured: Captured = Ok(("shim response\r\n".to_string(), String::new()));
    let response = agent.respond(&asked, captured, 18, &mut ResponseSeq::new());
    assert_eq!(response.kind, MessageKind::Response);
    assert_eq!(response.body.trim(), "shim response");
}

#[test]
fn external_agent_cmd_shim_preserves_metacharacters() {
    let argument = "meta & | ^ %BATON_EXPAND_ME% < > ( )";
    let agent = shim_agent(
        "baton-test-agent",
        argument,
        vec![("BATON_EXPAND_ME".to_string(), "must-not-expand".to_string())],
    );
    let asked = request_with_body("m-req-1", "metachar request");
    let seen = shim_arguments(&agent.child_spec(&asked));
    let captured: Captured = Ok((format!("BATON_ARG={}\r\n", seen[1]), String::new()));
    let response = agent.respond(&asked, captured, 18, &mut ResponseSeq::new());
    assert_eq!(response.kind, MessageKind::Response);
    assert_eq!(response.body.trim(), format!("BATON_ARG={argument}"));
}

#[test]
fn external_agent_program_path_with_spaces_runs() {
    let shim = "C:\\temp\\space dir\\baton-test-agent.cmd";
    let agent = shim_agent(shim, "argument with space", vec![]);
    let asked = request_with_body("m-req-1", "space request");
    let spec = agent.child_spec(&asked);
    assert_eq!(shim_arguments(&spec), vec![shim, "argument with space"]);
    assert_eq!(spec.payload, b"space request");
    let captured: Captured = Ok(("space path response\r\n".to_string(), String::new()));
    let response = agent.respond(&asked, captured, 18, &mut ResponseSeq::new());
    assert_eq!(response.kind, MessageKind::Response);
    assert_eq!(response.body.trim(), "space path response");
}

#[test]
fn an_odd_quote_does_not_reach_the_arguments_behind_it() {
    let tail = windows_command_tail("a\"b", &vec!["c&d".to_string()]);
    assert_eq!(tail, "\"\"a\\\"b\" \"c^&d^\"\"");
    let line = &tail[1..tail.len() - 1];
    assert_eq!(read_by_program(&read_by_cmd(line)), vec!["a\"b", "c&d"]);
}

#[test]
fn every_short_argument_list_survives_both_readers() {
    let alphabet = ["", "a", "a\"b", "x&y", "\"", "%\"%", "p q", "e\\", "^\\\""];
    for first in alphabet {
        for second in alphabet {
            for third in alphabet {
                let args = vec![second.to_string(), third.to_string()];
                let tail = windows_command_tail(first, &args);
                let line = &tail[1..tail.len() - 1];
                assert_eq!(read_by_program(&read_by_cmd(line)), vec![first, second, third]);
            }
        }
    }
}

#[test]
fn an_argument_is_quoted_by_what_stands_before_it() {
    let mut line = "\"open ".to_string();
    append_windows_arg(&mut line, "x|y");
    assert_eq!(line, "\"open \"x^|y^\"");
    let mut closed = "^\"careted ".to_string();
    append_windows_arg(&mut closed, "x|y");
    assert_eq!(closed, "^\"careted ^\"x^|y^\"");
}

// -- Participants' settings ------------------------------------------------------------

#[test]
fn the_current_executable_runs_its_exchange_verb() {
    let participant = SubprocessParticipant::for_current_exe(
        Ok("/usr/bin/baton".to_string()),
        vec![("A".to_string(), "1".to_string())],
        Span::from_secs(9),
    )
    .expect("the executable is known");
    let spec = participant.child_spec(Ok("{}".to_string())).expect("the request is encoded");
    assert_eq!(spec.program, "/usr/bin/baton");
    assert_eq!(spec.args, vec!["exchange"]);
    assert_eq!(spec.envs, vec![("A".to_string(), "1".to_string())]);
    assert!(spec.env_removals.is_empty());
    assert_eq!(spec.cwd, None);
    assert_eq!(spec.payload, b"{}");
    assert_eq!(spec.read_timeout, Some(Span::from_secs(9)));

    let unknown = SubprocessParticipant::for_current_exe(
        Err("not found".to_string()),
        vec![],
        Span::from_secs(9),
    );
    assert_eq!(
        unknown.err(),
        Some(BatonError::Io("could not resolve the current executable: not found".to_string()))
    );
    let unencoded = participant.child_spec(Err("too deep".to_string()));
    assert_eq!(
        unencoded.err(),
        Some(BatonError::Io("could not serialize request envelope: too deep".to_string()))
    );
}

#[test]
fn an_agent_is_told_its_turn_after_its_fixed_settings() {
    let agent = ExternalAgentParticipant::new(
        "agent".to_string(),
        vec![],
        vec![("BATON_TO".to_string(), "stale".to_string())],
        "/tree".to_string(),
        OutputAdapter::Raw,
        None,
    );
    let spec = agent.child_spec(&request());
    let names: Vec<&str> = spec.envs.iter().map(|(name, _)| name.as_str()).collect();
    assert_eq!(
        names,
        vec![
            "BATON_TO",
            "BATON_MESSAGE_ID",
            "BATON_CONVERSATION_ID",
            "BATON_FROM",
            "BATON_TO",
            "BATON_KIND",
            "BATON_IN_REPLY_TO",
            "BATON_TS_MS",
        ]
    );
    assert_eq!(spec.env_removals, vec!["BATON_ROLE"]);
    assert_eq!(spec.read_timeout, None);
    let with_role = agent.with_role("scribe".to_string()).child_spec(&request());
    assert!(with_role.env_removals.is_empty());
    assert_eq!(
        with_role.envs.last(),
        Some(&("BATON_ROLE".to_string(), "scribe".to_string()))
    );
}

#[test]
fn a_mailbox_turn_delivers_once_and_then_looks() {
    let participant = MailboxParticipant::new(
        "in".to_string(),
        "out".to_string(),
        Span::from_secs(1),
        Span::from_millis(300),
    );
    let mut turn = participant.start(&request());
    match turn.action() {
        MailboxAction::Deliver { inbox } => assert_eq!(inbox, "in"),
        other => panic!("{other:?}"),
    }
    turn = turn.step(MailboxEvent::Delivered);
    match turn.action() {
        MailboxAction::Claim { outbox, message_id } => {
            assert_eq!((outbox.as_str(), message_id.as_str()), ("out", "m1"));
        }
        other => panic!("{other:?}"),
    }
    turn = turn.step(MailboxEvent::Absent { elapsed: Span::from_millis(900) });
    match turn.action() {
        MailboxAction::Sleep(length) => assert_eq!(length, Span::from_millis(100)),
        other => panic!("{other:?}"),
    }
    turn = turn.step(MailboxEvent::Slept);
    assert!(matches!(turn.action(), MailboxAction::Claim { .. }));
    turn = turn.step(MailboxEvent::Failed(BatonError::Io("unreadable".to_string())));
    assert!(matches!(turn.action(), MailboxAction::Nothing));
    assert_eq!(turn.into_answer(), Some(Err(BatonError::Io("unreadable".to_string()))));
}
