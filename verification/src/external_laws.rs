//! What holds of the turns of an agent's command line.

use vstd::prelude::*;
use vstd::utf8::{encode_utf8, valid_utf8};

use crate::bytes::{
    law_text_read_back, law_undecodable_is_replaced, text_of, LINE_FEED, REPLACEMENT,
};
use crate::capture::{stdout_kept, MAX_STDOUT_BYTES};
use crate::capture_laws::law_result_survives_truncation;
use crate::child::{
    run_start, CapturedView, ChildEventView, ChildRunView, ChildSpecView, StageView,
};
use crate::child_laws::{law_clean_run, lemma_last_set_wins, run_after};
use crate::error::ErrorView;
use crate::external::{
    batch_json, comma_joined, stderr_file_name, AgentInputMode, AgentView, EncodedView,
};
use crate::message::{EnvelopeView, MessageKind};
use crate::message_laws::{drawn, law_fresh_ids_distinct};
use crate::outside::alphanumeric;
use crate::output::{law_chatter_excluded, line_field, JsonFieldView, OutputAdapter};
use crate::text::{blank, decimal, is_white, lemma_blank_has_no_final_line, trimmed};

verus! {

broadcast use vstd::string::group_string_axioms;

/// The variables of a turn are told apart by their length and one character.
proof fn lemma_names_apart()
    ensures
        "BATON_MESSAGE_ID"@.len() == 16 && "BATON_MESSAGE_ID"@[6] == 'M',
        "BATON_CONVERSATION_ID"@.len() == 21 && "BATON_CONVERSATION_ID"@[6] == 'C',
        "BATON_FROM"@.len() == 10 && "BATON_FROM"@[6] == 'F',
        "BATON_TO"@.len() == 8 && "BATON_TO"@[6] == 'T',
        "BATON_KIND"@.len() == 10 && "BATON_KIND"@[6] == 'K',
        "BATON_IN_REPLY_TO"@.len() == 17 && "BATON_IN_REPLY_TO"@[6] == 'I',
        "BATON_TS_MS"@.len() == 11 && "BATON_TS_MS"@[6] == 'T',
        "BATON_INBOX"@.len() == 11 && "BATON_INBOX"@[6] == 'I',
        "BATON_OUTBOX"@.len() == 12 && "BATON_OUTBOX"@[6] == 'O',
        "BATON_ROLE"@.len() == 10 && "BATON_ROLE"@[6] == 'R',
        "BATON_BATCH_SIZE"@.len() == 16 && "BATON_BATCH_SIZE"@[6] == 'B',
{
    reveal_strlit("BATON_MESSAGE_ID");
    reveal_strlit("BATON_CONVERSATION_ID");
    reveal_strlit("BATON_FROM");
    reveal_strlit("BATON_TO");
    reveal_strlit("BATON_KIND");
    reveal_strlit("BATON_IN_REPLY_TO");
    reveal_strlit("BATON_TS_MS");
    reveal_strlit("BATON_INBOX");
    reveal_strlit("BATON_OUTBOX");
    reveal_strlit("BATON_ROLE");
    reveal_strlit("BATON_BATCH_SIZE");
}

/// Every variable of a turn has a name of its own, and none of them is hidden.
proof fn lemma_vars_distinct(agent: AgentView, requests: Seq<EnvelopeView>)
    ensures
        ({
            let vars = agent.batch_vars(requests);
            &&& forall|i: int, j: int|
                0 <= i < j < vars.len() ==> (#[trigger] vars[i]).0 != (#[trigger] vars[j]).0
            &&& forall|i: int|
                0 <= i < vars.len() ==> !agent.hidden_vars().contains((#[trigger] vars[i]).0)
        }),
{
    lemma_names_apart();
    let vars = agent.batch_vars(requests);
    assert(vars.len() >= 8);
    if agent.role is None {
        assert(agent.hidden_vars() =~= seq!["BATON_ROLE"@]);
        assert forall|i: int| 0 <= i < vars.len() implies !agent.hidden_vars().contains(
            (#[trigger] vars[i]).0,
        ) by {
            assert(vars[i].0 != "BATON_ROLE"@);
            if agent.hidden_vars().contains(vars[i].0) {
                let k = choose|k: int|
                    0 <= k < agent.hidden_vars().len() && agent.hidden_vars()[k] == vars[i].0;
                assert(k == 0);
            }
        }
    }
}

proof fn lemma_var_is_set(
    agent: AgentView,
    vars: Seq<(Seq<char>, Seq<char>)>,
    payload: Seq<u8>,
    inherited: Map<Seq<char>, Seq<char>>,
    at: int,
)
    requires
        0 <= at < vars.len(),
        forall|i: int, j: int|
            0 <= i < j < vars.len() ==> (#[trigger] vars[i]).0 != (#[trigger] vars[j]).0,
        !agent.hidden_vars().contains(vars[at].0),
    ensures
        agent.child(vars, payload).environment(inherited).contains_key(vars[at].0),
        agent.child(vars, payload).environment(inherited)[vars[at].0] == vars[at].1,
{
    let sets = agent.envs + vars;
    let k = agent.envs.len() + at;
    assert(sets[k] == vars[at]);
    assert forall|j: int| k < j < sets.len() implies (#[trigger] sets[j]).0 != sets[k].0 by {
        assert(sets[j] == vars[j - agent.envs.len()]);
    }
    lemma_last_set_wins(inherited, sets, k);
    assert(!agent.hidden_vars().to_set().contains(vars[at].0));
}

/// What a turn says of its request is what the agent sees, whatever the fixed
/// variables say and whatever was inherited.
pub proof fn law_turn_values_win(
    agent: AgentView,
    request: EnvelopeView,
    inherited: Map<Seq<char>, Seq<char>>,
    at: int,
)
    requires
        0 <= at < agent.turn_vars(request).len(),
    ensures
        ({
            let (name, value) = agent.turn_vars(request)[at];
            let seen = agent.turn_child(request).environment(inherited);
            seen.contains_key(name) && seen[name] == value
        }),
{
    let vars = agent.turn_vars(request);
    let batch = seq![request];
    lemma_vars_distinct(agent, batch);
    let all = agent.batch_vars(batch);
    assert(all.drop_last() =~= vars);
    assert forall|i: int, j: int| 0 <= i < j < vars.len() implies (#[trigger] vars[i]).0 != (
    #[trigger] vars[j]).0 by {
        assert(all[i].0 != all[j].0);
    }
    assert(all[at] == vars[at]);
    lemma_var_is_set(agent, vars, encode_utf8(request.body), inherited, at);
}

/// The same of a batch: the agent sees the values of the last request, and the size.
pub proof fn law_batch_values_win(
    agent: AgentView,
    requests: Seq<EnvelopeView>,
    encoded: EncodedView,
    inherited: Map<Seq<char>, Seq<char>>,
    at: int,
)
    requires
        agent.batch_child(requests, encoded) is Ok,
        0 <= at < agent.turn_vars(requests.last()).len(),
    ensures
        ({
            let (name, value) = agent.turn_vars(requests.last())[at];
            let seen = agent.batch_child(requests, encoded)->Ok_0.environment(inherited);
            &&& seen.contains_key(name)
            &&& seen[name] == value
            &&& seen.contains_key("BATON_BATCH_SIZE"@)
            &&& seen["BATON_BATCH_SIZE"@] == decimal(requests.len())
        }),
{
    lemma_vars_distinct(agent, requests);
    let vars = agent.batch_vars(requests);
    let payload = agent.batch_input(requests, encoded)->Ok_0;
    assert(vars[at] == agent.turn_vars(requests.last())[at]);
    lemma_var_is_set(agent, vars, payload, inherited, at);
    lemma_var_is_set(agent, vars, payload, inherited, vars.len() - 1);
}

/// The role that the agent sees is the participant's: without one there is none, even
/// where the fixed variables or the inherited environment have one.
pub proof fn law_role_is_the_participants(
    agent: AgentView,
    request: EnvelopeView,
    requests: Seq<EnvelopeView>,
    encoded: EncodedView,
    inherited: Map<Seq<char>, Seq<char>>,
)
    ensures
        ({
            let seen = agent.turn_child(request).environment(inherited);
            match agent.role {
                Some(role) => seen.contains_key("BATON_ROLE"@) && seen["BATON_ROLE"@] == role,
                None => !seen.contains_key("BATON_ROLE"@),
            }
        }),
        agent.batch_child(requests, encoded) is Ok ==> {
            let seen = agent.batch_child(requests, encoded)->Ok_0.environment(inherited);
            match agent.role {
                Some(role) => seen.contains_key("BATON_ROLE"@) && seen["BATON_ROLE"@] == role,
                None => !seen.contains_key("BATON_ROLE"@),
            }
        },
{
    match agent.role {
        Some(role) => {
            let vars = agent.turn_vars(request);
            assert(vars[vars.len() - 1] == ("BATON_ROLE"@, role));
            law_turn_values_win(agent, request, inherited, vars.len() - 1);
            if agent.batch_child(requests, encoded) is Ok {
                let vars = agent.turn_vars(requests.last());
                assert(vars[vars.len() - 1] == ("BATON_ROLE"@, role));
                law_batch_values_win(agent, requests, encoded, inherited, vars.len() - 1);
            }
        },
        None => {
            assert(agent.hidden_vars()[0] == "BATON_ROLE"@);
            assert(agent.hidden_vars().to_set().contains("BATON_ROLE"@));
        },
    }
}

/// Every turn runs the same command in the same working directory, under the same limit;
/// what differs is what it is told of the request, and the request's body on its input.
pub proof fn law_turns_share_their_setting(
    agent: AgentView,
    request: EnvelopeView,
    other: EnvelopeView,
)
    ensures
        agent.turn_child(request) == (ChildSpecView {
            envs: agent.envs + agent.turn_vars(request),
            payload: encode_utf8(request.body),
            ..agent.turn_child(other)
        }),
        agent.turn_child(request).program == agent.program,
        agent.turn_child(request).args == agent.args,
        agent.turn_child(request).cwd == Some(agent.cwd),
        agent.turn_child(request).read_timeout == agent.read_timeout,
        agent.turn_child(request).payload == encode_utf8(request.body),
{
}

/// A batch of one request that is handed over as its body runs the child of a turn, told
/// of the batch's size besides.
pub proof fn law_single_batch_is_a_turn(
    agent: AgentView,
    request: EnvelopeView,
    encoded: EncodedView,
)
    requires
        agent.input_mode == AgentInputMode::Body,
    ensures
        agent.batch_child(seq![request], encoded) is Ok,
        ({
            let turn = agent.turn_child(request);
            let batch = agent.batch_child(seq![request], encoded)->Ok_0;
            &&& batch.program == turn.program
            &&& batch.args == turn.args
            &&& batch.envs == turn.envs.push(("BATON_BATCH_SIZE"@, seq!['1']))
            &&& batch.env_removals == turn.env_removals
            &&& batch.cwd == turn.cwd
            &&& batch.payload == turn.payload
            &&& batch.read_timeout == turn.read_timeout
        }),
{
    assert(decimal(1) =~= seq!['1']);
    let batch = agent.batch_child(seq![request], encoded)->Ok_0;
    assert(batch.envs =~= agent.turn_child(request).envs.push(("BATON_BATCH_SIZE"@, seq!['1'])));
}

/// The reply to a turn belongs to its request and nests no record. It is a response that
/// carries what the output adapter isolates from a successful run's output, and an error
/// that carries the failure's description where the run failed or nothing was isolated.
pub proof fn law_agent_reply(
    agent: AgentView,
    request: EnvelopeView,
    captured: CapturedView,
    ts_ms: u64,
    n: u64,
)
    ensures
        ({
            let reply = agent.reply(request, captured, ts_ms, n);
            let body = match captured {
                Ok((stdout, _)) => agent.output.body(stdout),
                Err(err) => Err(err),
            };
            &&& reply.conversation_id == request.conversation_id
            &&& reply.from == request.to
            &&& reply.to == request.from
            &&& reply.in_reply_to == Some(request.message_id)
            &&& reply.exchange is None
            &&& reply.ts_ms == ts_ms
            &&& reply.message_id == request.conversation_id + "-r-"@ + decimal(ts_ms as nat) + "-"@
                + decimal(n as nat)
            &&& agent.run_body(captured) == body
            &&& match body {
                Ok(text) => reply.kind == MessageKind::Response && reply.body == text && !blank(
                    text,
                ),
                Err(err) => reply.kind == MessageKind::Error && reply.body == err.text(),
            }
        }),
{
}

/// The run of a child that wrote `written` to its output and exited successfully.
pub open spec fn clean_run(
    spec: ChildSpecView,
    shown: Seq<char>,
    written: Seq<u8>,
    status: Seq<char>,
    stderr: Seq<char>,
) -> ChildRunView {
    run_after(
        run_start(spec, shown),
        seq![
            ChildEventView::Spawned,
            ChildEventView::PayloadWritten,
            ChildEventView::StdoutClosed(stdout_kept(written)),
            ChildEventView::Exited { success: true, status },
            ChildEventView::StderrCollected(stderr),
        ],
    )
}

/// What an agent prints is the reply: where the whole output is the result, a successful
/// run that prints `text` is answered with `text`.
pub proof fn law_printed_text_is_the_reply(
    agent: AgentView,
    request: EnvelopeView,
    shown: Seq<char>,
    text: Seq<char>,
    status: Seq<char>,
    stderr: Seq<char>,
    ts_ms: u64,
    n: u64,
)
    requires
        agent.output is Raw,
        !blank(text),
        encode_utf8(text).len() <= MAX_STDOUT_BYTES,
    ensures
        ({
            let run = clean_run(
                agent.turn_child(request),
                shown,
                encode_utf8(text),
                status,
                stderr,
            );
            &&& run.stage == (StageView::Finished { captured: Ok((text, stderr)) })
            &&& agent.reply(request, Ok((text, stderr)), ts_ms, n).kind == MessageKind::Response
            &&& agent.reply(request, Ok((text, stderr)), ts_ms, n).body == text
        }),
{
    law_clean_run(agent.turn_child(request), shown, stdout_kept(encode_utf8(text)), status, stderr);
    law_text_read_back(text);
}

/// Output that is not UTF-8 is no failure: where the whole output is the result, it is
/// answered with the text that its bytes are read as.
pub proof fn law_undecodable_output_is_the_reply(
    agent: AgentView,
    request: EnvelopeView,
    shown: Seq<char>,
    written: Seq<u8>,
    status: Seq<char>,
    stderr: Seq<char>,
    ts_ms: u64,
    n: u64,
)
    requires
        agent.output is Raw,
        !valid_utf8(stdout_kept(written)),
    ensures
        ({
            let run = clean_run(agent.turn_child(request), shown, written, status, stderr);
            let text = text_of(stdout_kept(written));
            &&& run.stage == (StageView::Finished { captured: Ok((text, stderr)) })
            &&& text.contains(REPLACEMENT)
            &&& agent.reply(request, Ok((text, stderr)), ts_ms, n).kind == MessageKind::Response
            &&& agent.reply(request, Ok((text, stderr)), ts_ms, n).body == text
        }),
{
    let text = text_of(stdout_kept(written));
    law_clean_run(agent.turn_child(request), shown, stdout_kept(written), status, stderr);
    law_undecodable_is_replaced(stdout_kept(written));
    let i = choose|i: int| 0 <= i < text.len() && text[i] == REPLACEMENT;
    assert(!is_white(text[i]));
}

/// Where the result is a member of the final line, a successful run is answered with that
/// member, whatever it printed above the line and however much of that was dropped.
pub proof fn law_final_member_is_the_reply(
    agent: AgentView,
    request: EnvelopeView,
    shown: Seq<char>,
    key: String,
    above: Seq<u8>,
    line: Seq<char>,
    tail: Seq<char>,
    body: Seq<char>,
    status: Seq<char>,
    stderr: Seq<char>,
    ts_ms: u64,
    n: u64,
)
    requires
        agent.output == (OutputAdapter::Json { result_key: key }),
        forall|i: int| 0 <= i < line.len() ==> #[trigger] line[i] != '\n',
        !blank(line),
        blank(tail),
        encode_utf8(line + tail).len() <= MAX_STDOUT_BYTES,
        line_field(trimmed(line), key@) == Ok::<JsonFieldView, Seq<char>>(JsonFieldView::Text(body)),
        !blank(body),
    ensures
        ({
            let run = clean_run(
                agent.turn_child(request),
                shown,
                above + seq![LINE_FEED] + encode_utf8(line + tail),
                status,
                stderr,
            );
            &&& run.stage is Finished
            &&& agent.reply(request, run.stage->captured, ts_ms, n).kind == MessageKind::Response
            &&& agent.reply(request, run.stage->captured, ts_ms, n).body == body
        }),
{
    let written = above + seq![LINE_FEED] + encode_utf8(line + tail);
    law_clean_run(agent.turn_child(request), shown, stdout_kept(written), status, stderr);
    law_result_survives_truncation(key@, above, line, tail);
    law_chatter_excluded(key@, Seq::empty(), line, tail);
    let stdout = text_of(stdout_kept(written));
    if blank(stdout) {
        lemma_blank_has_no_final_line(stdout);
    }
}

/// A run that failed is answered with an error that carries its failure.
pub proof fn law_failed_run_delivered(
    agent: AgentView,
    request: EnvelopeView,
    err: ErrorView,
    ts_ms: u64,
    n: u64,
)
    ensures
        agent.reply(request, Err(err), ts_ms, n).kind == MessageKind::Error,
        agent.reply(request, Err(err), ts_ms, n).body == err.text(),
{
}

/// Every request of a batch is answered by a reply of its own: two of them have the same
/// kind and body and different identifiers, and each belongs to its own request.
pub proof fn law_batch_answered(
    agent: AgentView,
    requests: Seq<EnvelopeView>,
    captured: CapturedView,
    stamps: Seq<u64>,
    start: u64,
    i: nat,
    j: nat,
)
    requires
        i < j < requests.len(),
        requests.len() == stamps.len(),
        requests.len() <= 0x1_0000_0000_0000_0000,
    ensures
        ({
            let one = agent.reply(requests[i as int], captured, stamps[i as int], drawn(start, i));
            let other = agent.reply(
                requests[j as int],
                captured,
                stamps[j as int],
                drawn(start, j),
            );
            &&& one.kind == other.kind
            &&& one.body == other.body
            &&& one.message_id != other.message_id
            &&& one.in_reply_to == Some(requests[i as int].message_id)
            &&& other.in_reply_to == Some(requests[j as int].message_id)
        }),
{
    law_fresh_ids_distinct(
        start,
        i,
        j,
        requests[i as int].conversation_id,
        stamps[i as int],
        requests[j as int].conversation_id,
        stamps[j as int],
    );
}

/// A batch holds its requests in their order: a batch that is made of two parts holds
/// the first and then the second.
pub proof fn law_batch_in_order(first: Seq<Seq<char>>, second: Seq<Seq<char>>)
    requires
        first.len() > 0,
        second.len() > 0,
    ensures
        batch_json(first + second) == "{\"batch\":["@ + comma_joined(first) + ","@ + comma_joined(
            second,
        ) + "]}"@,
{
    lemma_joined_in_order(first, second);
    assert(batch_json(first + second) =~= "{\"batch\":["@ + comma_joined(first) + ","@
        + comma_joined(second) + "]}"@);
}

proof fn lemma_joined_in_order(first: Seq<Seq<char>>, second: Seq<Seq<char>>)
    requires
        first.len() > 0,
        second.len() > 0,
    ensures
        comma_joined(first + second) == comma_joined(first) + ","@ + comma_joined(second),
    decreases second.len(),
{
    let whole = first + second;
    assert(whole.drop_last() =~= first + second.drop_last());
    assert(whole.last() == second.last());
    if second.len() == 1 {
        assert(first + second.drop_last() =~= first);
    } else {
        lemma_joined_in_order(first, second.drop_last());
        assert(comma_joined(whole) =~= comma_joined(first) + ","@ + comma_joined(second));
    }
}

/// Standard error is kept only of a run that succeeded, only where it is not blank and
/// only where there is a directory for it; what is kept is all of it.
pub proof fn law_stderr_kept_of_success(
    agent: AgentView,
    message_id: Seq<char>,
    captured: CapturedView,
)
    ensures
        agent.run_record(message_id, captured) is Some <==> (captured is Ok && !blank(
            captured->Ok_0.1,
        ) && agent.stderr_dir is Some),
        agent.run_record(message_id, captured) matches Some(record) ==> record.text
            == captured->Ok_0.1 && Some(record.dir) == agent.stderr_dir && record.file_name
            == stderr_file_name(message_id),
        captured matches Ok((_, stderr)) ==> agent.run_record(message_id, captured)
            == agent.stderr_record(message_id, stderr),
{
}

/// The file of a message's standard error is named by the message: letters, digits, dashes
/// and underscores of its identifier stay, every other character becomes an underscore, and
/// `.stderr` stands behind. So it stays in its directory: whatever the identifier, the name
/// holds no separator and is no name for another directory.
pub proof fn law_stderr_file_stays(id: Seq<char>)
    ensures
        stderr_file_name(id).len() == id.len() + 7,
        stderr_file_name(id).skip(id.len() as int) == ".stderr"@,
        forall|i: int|
            0 <= i < id.len() ==> #[trigger] stderr_file_name(id)[i] == if ('0' <= id[i] <= '9')
                || ('A' <= id[i] <= 'Z') || ('a' <= id[i] <= 'z') || id[i] == '-' || id[i] == '_'
                || (id[i] as u32 >= 128 && alphanumeric(id[i])) {
                id[i]
            } else {
                '_'
            },
        forall|i: int|
            0 <= i < stderr_file_name(id).len() ==> {
                let c = #[trigger] stderr_file_name(id)[i];
                c != '/' && c != '\\' && c != ':' && c != '\0'
            },
        forall|i: int| 0 <= i < id.len() ==> #[trigger] stderr_file_name(id)[i] != '.',
{
    reveal_strlit(".stderr");
    assert(stderr_file_name(id).skip(id.len() as int) =~= ".stderr"@);
}

} // verus!
