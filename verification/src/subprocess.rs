//! The participant that answers through a child process speaking envelopes.

use vstd::prelude::*;
use vstd::utf8::encode_utf8;

use crate::child::{captured_view, Captured, CapturedView, ChildSpec, ChildSpecView};
use crate::error::{outcome_view, BatonError, ErrorView};
use crate::message::{seq_after, EnvelopeView, MessageEnvelope, ResponseSeq};
use crate::participant::{deliver_answer, delivered};
use crate::span::Span;
use crate::text::{blank, copy_pairs, copy_texts, is_blank};

verus! {

broadcast use vstd::string::group_string_axioms;

/// A participant that starts a program for each request, writes the request to it,
/// and reads one envelope back.
///
/// An envelope from a child that exited successfully is delivered as it is. Anything
/// else is delivered as an error that nests no record.
#[derive(Debug)]
pub struct SubprocessParticipant {
    program: String,
    args: Vec<String>,
    envs: Vec<(String, String)>,
    read_timeout: Span,
}

#[verifier::ext_equal]
pub struct SubprocessView {
    pub program: Seq<char>,
    pub args: Seq<Seq<char>>,
    pub envs: Seq<(Seq<char>, Seq<char>)>,
    pub read_timeout: nat,
}

impl View for SubprocessParticipant {
    type V = SubprocessView;

    closed spec fn view(&self) -> SubprocessView {
        SubprocessView {
            program: self.program@,
            args: self.args.deep_view(),
            envs: self.envs.deep_view(),
            read_timeout: self.read_timeout@,
        }
    }
}

impl SubprocessView {
    /// The child of one exchange, where `payload` is the request as JSON.
    pub open spec fn child(self, payload: Seq<char>) -> ChildSpecView {
        ChildSpecView {
            program: self.program,
            args: self.args,
            envs: self.envs,
            env_removals: Seq::empty(),
            cwd: None,
            payload: encode_utf8(payload),
            read_timeout: Some(self.read_timeout),
        }
    }
}

/// The envelope that a child's run gives, where `decoded` is what its output was
/// decoded as.
pub open spec fn child_answer(
    captured: CapturedView,
    decoded: Result<EnvelopeView, Seq<char>>,
) -> Result<EnvelopeView, ErrorView> {
    match captured {
        Err(err) => Err(err),
        Ok((stdout, _)) => if blank(stdout) {
            Err(ErrorView::Decode("child participant produced no response envelope"@))
        } else {
            match decoded {
                Ok(envelope) => Ok(envelope),
                Err(problem) => Err(
                    ErrorView::Decode(
                        "child participant produced a malformed response envelope: "@ + problem,
                    ),
                ),
            }
        },
    }
}

pub open spec fn decoded_view(decoded: Result<MessageEnvelope, String>) -> Result<
    EnvelopeView,
    Seq<char>,
> {
    match decoded {
        Ok(envelope) => Ok(envelope@),
        Err(problem) => Err(problem@),
    }
}

impl SubprocessParticipant {
    /// A participant that starts `program` with `args`, sets `envs` over the
    /// inherited environment, and waits for the child's envelope for no longer than
    /// `read_timeout`.
    pub fn new(
        program: String,
        args: Vec<String>,
        envs: Vec<(String, String)>,
        read_timeout: Span,
    ) -> (participant: SubprocessParticipant)
        ensures
            participant@ == (SubprocessView {
                program: program@,
                args: args.deep_view(),
                envs: envs.deep_view(),
                read_timeout: read_timeout@,
            }),
    {
        SubprocessParticipant { program, args, envs, read_timeout }
    }

    /// A participant that starts the running executable with the `exchange` verb,
    /// where `current_exe` is the path of that executable, or why it is not known.
    pub fn for_current_exe(
        current_exe: Result<String, String>,
        envs: Vec<(String, String)>,
        read_timeout: Span,
    ) -> (participant: Result<SubprocessParticipant, BatonError>)
        ensures
            outcome_view(participant) == match current_exe {
                Ok(program) => Ok::<SubprocessView, ErrorView>(
                    SubprocessView {
                        program: program@,
                        args: seq!["exchange"@],
                        envs: envs.deep_view(),
                        read_timeout: read_timeout@,
                    },
                ),
                Err(problem) => Err(
                    ErrorView::Io("could not resolve the current executable: "@ + problem@),
                ),
            },
    {
        match current_exe {
            Ok(program) => {
                let mut args: Vec<String> = Vec::new();
                args.push("exchange".to_owned());
                assert(args.deep_view() =~= seq!["exchange"@]);
                Ok(SubprocessParticipant::new(program, args, envs, read_timeout))
            },
            Err(problem) => Err(
                BatonError::Io(
                    "could not resolve the current executable: ".to_owned().concat(
                        problem.as_str(),
                    ),
                ),
            ),
        }
    }

    /// The child to run for one exchange, where `payload` is the request as JSON, or
    /// why it could not be written as JSON.
    pub fn child_spec(&self, payload: Result<String, String>) -> (spec: Result<
        ChildSpec,
        BatonError,
    >)
        ensures
            outcome_view(spec) == match payload {
                Ok(json) => Ok::<ChildSpecView, ErrorView>(self@.child(json@)),
                Err(problem) => Err(
                    ErrorView::Io("could not serialize request envelope: "@ + problem@),
                ),
            },
    {
        match payload {
            Ok(json) => {
                let env_removals: Vec<String> = Vec::new();
                assert(env_removals.deep_view() =~= Seq::<Seq<char>>::empty());
                Ok(
                    ChildSpec {
                        program: self.program.clone(),
                        args: copy_texts(&self.args),
                        envs: copy_pairs(&self.envs),
                        env_removals,
                        cwd: None,
                        payload: json.as_str().as_bytes_vec(),
                        read_timeout: Some(self.read_timeout),
                    },
                )
            },
            Err(problem) => Err(
                BatonError::Io(
                    "could not serialize request envelope: ".to_owned().concat(problem.as_str()),
                ),
            ),
        }
    }

    /// The envelope that a child's run gives, where `decoded` is what its output was
    /// decoded as. A blank output is not decoded.
    pub fn try_respond(
        &self,
        captured: Captured,
        decoded: Result<MessageEnvelope, String>,
    ) -> (answer: Result<MessageEnvelope, BatonError>)
        ensures
            outcome_view(answer) == child_answer(captured_view(captured), decoded_view(decoded)),
    {
        match captured {
            Err(err) => Err(err),
            Ok((stdout, _stderr)) => {
                if is_blank(stdout.as_str()) {
                    return Err(
                        BatonError::Decode(
                            "child participant produced no response envelope".to_owned(),
                        ),
                    );
                }
                match decoded {
                    Ok(envelope) => Ok(envelope),
                    Err(problem) => Err(
                        BatonError::Decode(
                            "child participant produced a malformed response envelope: ".to_owned().concat(
                            problem.as_str()),
                        ),
                    ),
                }
            },
        }
    }

    /// The reply to `request` after a child's run.
    pub fn respond(
        &self,
        request: &MessageEnvelope,
        captured: Captured,
        decoded: Result<MessageEnvelope, String>,
        ts_ms: u64,
        seq: &mut ResponseSeq,
    ) -> (response: MessageEnvelope)
        ensures
            response@ == delivered(
                request@,
                child_answer(captured_view(captured), decoded_view(decoded)),
                ts_ms,
                old(seq)@,
            ),
            final(seq)@ == if child_answer(captured_view(captured), decoded_view(decoded)) is Ok {
                old(seq)@
            } else {
                seq_after(old(seq)@)
            },
    {
        let answer = self.try_respond(captured, decoded);
        deliver_answer(request, answer, ts_ms, seq)
    }
}

/// A well-formed envelope from a child that exited successfully is delivered
/// unchanged, an error with its nested record included.
pub proof fn law_child_envelope_unchanged(
    request: EnvelopeView,
    stdout: Seq<char>,
    stderr: Seq<char>,
    envelope: EnvelopeView,
    ts_ms: u64,
    n: u64,
)
    requires
        !blank(stdout),
    ensures
        delivered(request, child_answer(Ok((stdout, stderr)), Ok(envelope)), ts_ms, n) == envelope,
{
}

/// Without such an envelope the reply is an error that belongs to the request and
/// nests no record.
pub proof fn law_machinery_failure_delivered(
    request: EnvelopeView,
    captured: CapturedView,
    decoded: Result<EnvelopeView, Seq<char>>,
    ts_ms: u64,
    n: u64,
)
    requires
        captured is Err || blank(captured->Ok_0.0) || decoded is Err,
    ensures
        ({
            let reply = delivered(request, child_answer(captured, decoded), ts_ms, n);
            &&& reply.kind == crate::message::MessageKind::Error
            &&& reply.exchange is None
            &&& reply.conversation_id == request.conversation_id
            &&& reply.from == request.to
            &&& reply.to == request.from
            &&& reply.in_reply_to == Some(request.message_id)
        }),
{
}

/// The child of an exchange is the participant's program with its arguments and settings:
/// nothing is hidden from it, it runs where the host runs, it gets the request's JSON as it
/// is, and its limit is the participant's.
pub proof fn law_exchange_child(participant: SubprocessView, json: Seq<char>)
    ensures
        ({
            let child = participant.child(json);
            &&& child.program == participant.program
            &&& child.args == participant.args
            &&& child.envs == participant.envs
            &&& child.env_removals.len() == 0
            &&& child.cwd is None
            &&& child.payload == encode_utf8(json)
            &&& child.read_timeout == Some(participant.read_timeout)
        }),
{
}

/// What a child's run gives: the failure of the run as it is; of a run that succeeded with
/// output that is not blank, the envelope that the output was decoded as; and where there
/// is none, a failure that says so.
pub proof fn law_child_answer(
    err: ErrorView,
    stdout: Seq<char>,
    stderr: Seq<char>,
    envelope: EnvelopeView,
    problem: Seq<char>,
    decoded: Result<EnvelopeView, Seq<char>>,
)
    ensures
        child_answer(Err(err), decoded) == Err::<EnvelopeView, ErrorView>(err),
        blank(stdout) ==> child_answer(Ok((stdout, stderr)), decoded) == Err::<
            EnvelopeView,
            ErrorView,
        >(ErrorView::Decode("child participant produced no response envelope"@)),
        !blank(stdout) ==> child_answer(Ok((stdout, stderr)), Ok(envelope)) == Ok::<
            EnvelopeView,
            ErrorView,
        >(envelope),
        !blank(stdout) ==> child_answer(Ok((stdout, stderr)), Err(problem)) == Err::<
            EnvelopeView,
            ErrorView,
        >(
            ErrorView::Decode(
                "child participant produced a malformed response envelope: "@ + problem,
            ),
        ),
{
}

/// A decoded envelope is told by itself, and a failure to decode by its description.
pub proof fn law_decoded_by_its_content(envelope: MessageEnvelope, problem: String)
    ensures
        decoded_view(Ok(envelope)) == Ok::<EnvelopeView, Seq<char>>(envelope@),
        decoded_view(Err(problem)) == Err::<EnvelopeView, Seq<char>>(problem@),
{
}

} // verus!
