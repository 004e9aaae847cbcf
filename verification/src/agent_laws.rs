//! What an agent is handed: its environment and its input, value by value.

use vstd::prelude::*;
use vstd::utf8::encode_utf8;

use crate::child::env_with;
use crate::child_outcome_laws::lemma_unset_is_inherited;
use crate::error::ErrorView;
use crate::external::{
    batch_view, comma_joined, encoded_view, AgentInputMode, AgentView, EncodedView,
    StderrRecord,
};
use crate::external_laws::{law_role_is_the_participants, law_turn_values_win};
use crate::message::{EnvelopeView, MessageEnvelope, MessageKind};
use crate::text::decimal;

verus! {

broadcast use vstd::string::group_string_axioms;

/// In `seen`, the variable `name` has the value `value`.
pub open spec fn shows(
    seen: Map<Seq<char>, Seq<char>>,
    name: Seq<char>,
    value: Seq<char>,
) -> bool {
    seen.contains_key(name) && seen[name] == value
}

/// The variable `name` is the same in both: absent, or of one value.
pub open spec fn agree_on(
    seen: Map<Seq<char>, Seq<char>>,
    other: Map<Seq<char>, Seq<char>>,
    name: Seq<char>,
) -> bool {
    &&& seen.contains_key(name) <==> other.contains_key(name)
    &&& seen.contains_key(name) ==> seen[name] == other[name]
}

/// Each variable of a turn tells one thing of the message that is answered: its identifier,
/// its conversation, its sender, its addressee, its kind by the kind's own name, what it
/// answers, and its time.
pub proof fn law_agent_sees_the_message(
    agent: AgentView,
    request: EnvelopeView,
    inherited: Map<Seq<char>, Seq<char>>,
)
    ensures
        ({
            let seen = agent.turn_child(request).environment(inherited);
            &&& shows(seen, "BATON_MESSAGE_ID"@, request.message_id)
            &&& shows(seen, "BATON_CONVERSATION_ID"@, request.conversation_id)
            &&& shows(seen, "BATON_FROM"@, request.from)
            &&& shows(seen, "BATON_TO"@, request.to)
            &&& shows(
                seen,
                "BATON_KIND"@,
                match request.kind {
                    MessageKind::Request => "request"@,
                    MessageKind::Response => "response"@,
                    MessageKind::Done => "done"@,
                    MessageKind::Error => "error"@,
                    MessageKind::Notify => "notify"@,
                },
            )
            &&& shows(
                seen,
                "BATON_IN_REPLY_TO"@,
                match request.in_reply_to {
                    Some(id) => id,
                    None => Seq::empty(),
                },
            )
            &&& shows(seen, "BATON_TS_MS"@, decimal(request.ts_ms as nat))
        }),
{
    assert forall|i: int| 0 <= i < 7 implies {
        let (name, value) = #[trigger] agent.turn_vars(request)[i];
        shows(agent.turn_child(request).environment(inherited), name, value)
    } by {
        law_turn_values_win(agent, request, inherited, i);
    }
    let vars = agent.turn_vars(request);
    assert(vars[0].0 == "BATON_MESSAGE_ID"@);
    assert(vars[1].0 == "BATON_CONVERSATION_ID"@);
    assert(vars[2].0 == "BATON_FROM"@);
    assert(vars[3].0 == "BATON_TO"@);
    assert(vars[4].0 == "BATON_KIND"@);
    assert(vars[5].0 == "BATON_IN_REPLY_TO"@);
    assert(vars[6].0 == "BATON_TS_MS"@);
}

proof fn lemma_env_in_two_steps(
    inherited: Map<Seq<char>, Seq<char>>,
    a: Seq<(Seq<char>, Seq<char>)>,
    b: Seq<(Seq<char>, Seq<char>)>,
)
    ensures
        env_with(inherited, a + b) == env_with(env_with(inherited, a), b),
    decreases b.len(),
{
    if b.len() == 0 {
        assert(a + b =~= a);
    } else {
        assert((a + b).drop_last() =~= a + b.drop_last());
        lemma_env_in_two_steps(inherited, a, b.drop_last());
    }
}

/// Where a turn does not set a variable, the agent sees what the fixed settings make of the
/// inherited one.
proof fn lemma_left_alone(
    agent: AgentView,
    request: EnvelopeView,
    inherited: Map<Seq<char>, Seq<char>>,
    name: Seq<char>,
)
    requires
        forall|i: int|
            0 <= i < agent.turn_vars(request).len() ==> (#[trigger] agent.turn_vars(request)[i]).0
                != name,
        !agent.hidden_vars().contains(name),
    ensures
        agree_on(
            agent.turn_child(request).environment(inherited),
            env_with(inherited, agent.envs),
            name,
        ),
{
    let vars = agent.turn_vars(request);
    lemma_env_in_two_steps(inherited, agent.envs, vars);
    lemma_unset_is_inherited(env_with(inherited, agent.envs), vars, name);
    assert(!agent.hidden_vars().to_set().contains(name));
}

proof fn lemma_mailbox_names_apart()
    ensures
        "BATON_INBOX"@.len() == 11 && "BATON_INBOX"@[6] == 'I',
        "BATON_OUTBOX"@.len() == 12 && "BATON_OUTBOX"@[6] == 'O',
        "BATON_ROLE"@.len() == 10 && "BATON_ROLE"@[6] == 'R',
        "BATON_MESSAGE_ID"@.len() == 16,
        "BATON_CONVERSATION_ID"@.len() == 21,
        "BATON_FROM"@.len() == 10 && "BATON_FROM"@[6] == 'F',
        "BATON_TO"@.len() == 8,
        "BATON_KIND"@.len() == 10 && "BATON_KIND"@[6] == 'K',
        "BATON_IN_REPLY_TO"@.len() == 17,
        "BATON_TS_MS"@.len() == 11 && "BATON_TS_MS"@[6] == 'T',
{
    reveal_strlit("BATON_INBOX");
    reveal_strlit("BATON_OUTBOX");
    reveal_strlit("BATON_ROLE");
    reveal_strlit("BATON_MESSAGE_ID");
    reveal_strlit("BATON_CONVERSATION_ID");
    reveal_strlit("BATON_FROM");
    reveal_strlit("BATON_TO");
    reveal_strlit("BATON_KIND");
    reveal_strlit("BATON_IN_REPLY_TO");
    reveal_strlit("BATON_TS_MS");
}

/// Of the mailbox the agent is told what the participant was told: its inbox, its outbox and
/// its role. An inbox or outbox that the participant does not know is left as it is, and a
/// role that it does not have is kept from the agent.
pub proof fn law_agent_sees_the_mailbox(
    agent: AgentView,
    request: EnvelopeView,
    inherited: Map<Seq<char>, Seq<char>>,
)
    ensures
        ({
            let seen = agent.turn_child(request).environment(inherited);
            let fixed = env_with(inherited, agent.envs);
            &&& match agent.inbox {
                Some(inbox) => shows(seen, "BATON_INBOX"@, inbox),
                None => agree_on(seen, fixed, "BATON_INBOX"@),
            }
            &&& match agent.outbox {
                Some(outbox) => shows(seen, "BATON_OUTBOX"@, outbox),
                None => agree_on(seen, fixed, "BATON_OUTBOX"@),
            }
            &&& match agent.role {
                Some(role) => shows(seen, "BATON_ROLE"@, role),
                None => !seen.contains_key("BATON_ROLE"@),
            }
        }),
{
    let vars = agent.turn_vars(request);
    lemma_mailbox_names_apart();
    law_role_is_the_participants(agent, request, Seq::empty(), Err(Seq::empty()), inherited);
    assert(!agent.hidden_vars().contains("BATON_INBOX"@));
    assert(!agent.hidden_vars().contains("BATON_OUTBOX"@));
    match agent.inbox {
        Some(inbox) => {
            assert(vars[7] == ("BATON_INBOX"@, inbox));
            law_turn_values_win(agent, request, inherited, 7);
        },
        None => {
            lemma_left_alone(agent, request, inherited, "BATON_INBOX"@);
        },
    }
    match agent.outbox {
        Some(outbox) => {
            let at = if agent.inbox is Some {
                8int
            } else {
                7int
            };
            assert(vars[at] == ("BATON_OUTBOX"@, outbox));
            law_turn_values_win(agent, request, inherited, at);
        },
        None => {
            lemma_left_alone(agent, request, inherited, "BATON_OUTBOX"@);
        },
    }
}

/// A turn touches no other variable.
pub proof fn law_agent_sees_the_rest_unchanged(
    agent: AgentView,
    request: EnvelopeView,
    inherited: Map<Seq<char>, Seq<char>>,
    name: Seq<char>,
)
    requires
        name != "BATON_MESSAGE_ID"@,
        name != "BATON_CONVERSATION_ID"@,
        name != "BATON_FROM"@,
        name != "BATON_TO"@,
        name != "BATON_KIND"@,
        name != "BATON_IN_REPLY_TO"@,
        name != "BATON_TS_MS"@,
        name != "BATON_INBOX"@,
        name != "BATON_OUTBOX"@,
        name != "BATON_ROLE"@,
    ensures
        agree_on(
            agent.turn_child(request).environment(inherited),
            env_with(inherited, agent.envs),
            name,
        ),
{
    assert(!agent.hidden_vars().contains(name));
    lemma_left_alone(agent, request, inherited, name);
}

/// A batch is run as a turn for its last request is, and the agent sees what it sees there,
/// with the number of requests besides.
pub proof fn law_batch_is_told_by_its_last(
    agent: AgentView,
    requests: Seq<EnvelopeView>,
    encoded: EncodedView,
    inherited: Map<Seq<char>, Seq<char>>,
    name: Seq<char>,
)
    requires
        agent.batch_child(requests, encoded) is Ok,
        requests.len() > 0,
    ensures
        ({
            let batch = agent.batch_child(requests, encoded)->Ok_0;
            let turn = agent.turn_child(requests[requests.len() - 1]);
            &&& batch.program == turn.program
            &&& batch.args == turn.args
            &&& batch.cwd == turn.cwd
            &&& batch.read_timeout == turn.read_timeout
            &&& shows(
                batch.environment(inherited),
                "BATON_BATCH_SIZE"@,
                decimal(requests.len()),
            )
            &&& name != "BATON_BATCH_SIZE"@ ==> agree_on(
                batch.environment(inherited),
                turn.environment(inherited),
                name,
            )
        }),
{
    let batch = agent.batch_child(requests, encoded)->Ok_0;
    let turn = agent.turn_child(requests[requests.len() - 1]);
    assert(batch.envs.drop_last() =~= turn.envs);
    assert(batch.envs.last() == ("BATON_BATCH_SIZE"@, decimal(requests.len())));
    assert(!agent.hidden_vars().to_set().contains("BATON_BATCH_SIZE"@)) by {
        reveal_strlit("BATON_ROLE");
        reveal_strlit("BATON_BATCH_SIZE");
        assert("BATON_ROLE"@.len() != "BATON_BATCH_SIZE"@.len());
        assert(!agent.hidden_vars().contains("BATON_BATCH_SIZE"@));
    }
}

/// `documents` with a comma before each but the first.
pub open spec fn comma_led(documents: Seq<Seq<char>>) -> Seq<Seq<char>> {
    Seq::new(
        documents.len(),
        |i: int|
            if i == 0 {
                documents[i]
            } else {
                ","@ + documents[i]
            },
    )
}

proof fn lemma_joined_is_comma_led(documents: Seq<Seq<char>>)
    ensures
        comma_joined(documents) == comma_led(documents).flatten(),
    decreases documents.len(),
{
    if documents.len() == 0 {
        assert(comma_led(documents).flatten() =~= Seq::<char>::empty());
    } else {
        let before = documents.drop_last();
        let last = comma_led(documents).last();
        lemma_joined_is_comma_led(before);
        assert(comma_led(documents) =~= comma_led(before).push(last));
        comma_led(before).lemma_flatten_push(last);
        if documents.len() == 1 {
            assert(comma_led(before).flatten() =~= Seq::<char>::empty());
            assert(comma_joined(documents) =~= comma_led(documents).flatten());
        } else {
            assert(comma_joined(documents) =~= comma_led(documents).flatten());
        }
    }
}

/// In JSON mode the agent of every batch, one of a single request included, gets one object
/// whose `batch` holds each request's document, whole and in order, with commas between.
pub proof fn law_batch_json_on_input(
    agent: AgentView,
    requests: Seq<EnvelopeView>,
    documents: Seq<Seq<char>>,
)
    requires
        agent.input_mode == AgentInputMode::BatchJson,
    ensures
        ({
            let input = encode_utf8("{\"batch\":["@ + comma_led(documents).flatten() + "]}"@);
            &&& agent.batch_input(requests, Ok(documents)) == Ok::<Seq<u8>, ErrorView>(input)
            &&& agent.batch_child(requests, Ok(documents)) is Ok
            &&& agent.batch_child(requests, Ok(documents))->Ok_0.payload == input
        }),
{
    lemma_joined_is_comma_led(documents);
}

/// In JSON mode a batch that could not be encoded runs no child: the failure says why.
pub proof fn law_unencoded_batch_runs_nothing(
    agent: AgentView,
    requests: Seq<EnvelopeView>,
    problem: Seq<char>,
)
    requires
        agent.input_mode == AgentInputMode::BatchJson,
    ensures
        ({
            let err = ErrorView::Decode("could not encode batch-json stdin: "@ + problem);
            &&& agent.batch_input(requests, Err(problem)) == Err::<Seq<u8>, ErrorView>(err)
            &&& agent.batch_child(requests, Err(problem)) is Err
            &&& agent.batch_child(requests, Err(problem))->Err_0 == err
        }),
{
}

/// In body mode the agent gets the first request's body as it is, encoded or not.
pub proof fn law_body_on_input(
    agent: AgentView,
    requests: Seq<EnvelopeView>,
    encoded: EncodedView,
)
    requires
        agent.input_mode == AgentInputMode::Body,
        requests.len() > 0,
    ensures
        agent.batch_input(requests, encoded) == Ok::<Seq<u8>, ErrorView>(
            encode_utf8(requests[0].body),
        ),
        agent.batch_child(requests, encoded) is Ok,
        agent.batch_child(requests, encoded)->Ok_0.payload == encode_utf8(requests[0].body),
{
}

/// A batch is told by its requests, one by one, and by their documents.
pub proof fn law_batch_by_its_content(
    requests: Seq<MessageEnvelope>,
    documents: Vec<String>,
    problem: String,
)
    ensures
        batch_view(requests).len() == requests.len(),
        forall|i: int|
            0 <= i < requests.len() ==> #[trigger] batch_view(requests)[i] == requests[i]@,
        encoded_view(Ok(documents)) is Ok,
        encoded_view(Ok(documents))->Ok_0.len() == documents.len(),
        forall|i: int|
            0 <= i < documents.len() ==> #[trigger] encoded_view(Ok(documents))->Ok_0[i]
                == documents[i]@,
        encoded_view(Err(problem)) == Err::<Seq<Seq<char>>, Seq<char>>(problem@),
{
}

/// A record of standard error is told by all that it holds.
pub proof fn law_stderr_record_by_its_fields(record: StderrRecord)
    ensures
        record@.dir == record.dir@,
        record@.file_name == record.file_name@,
        record@.text == record.text@,
        record.deep_view() == record@,
{
}

} // verus!
