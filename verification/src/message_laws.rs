//! What holds of the identifiers and the addressing of replies.

use vstd::prelude::*;

use crate::message::{
    fresh_reply, reply_id, reply_to, seq_after, EnvelopeView, MessageEnvelope, MessageKind,
};
use crate::text::{decimal, lemma_decimal_digits, lemma_decimal_injective};

verus! {

broadcast use vstd::string::group_string_axioms;

/// The number that the `k`-th draw gives, counted from nought, from a counter that
/// stands at `start`.
pub open spec fn drawn(start: u64, k: nat) -> u64
    decreases k,
{
    if k == 0 {
        start
    } else {
        seq_after(drawn(start, (k - 1) as nat))
    }
}

/// A counter counts: each draw gives the number after the last, and after the largest one
/// it begins anew.
pub proof fn law_counter_counts(start: u64, k: nat)
    ensures
        drawn(start, k) == (start + k) % 0x1_0000_0000_0000_0000,
        start < u64::MAX ==> seq_after(start) == start + 1,
        seq_after(u64::MAX) == 0,
    decreases k,
{
    if k > 0 {
        law_counter_counts(start, (k - 1) as nat);
    }
}

/// A text is cut at its last dash in one way only.
proof fn lemma_last_dash(a1: Seq<char>, d1: Seq<char>, a2: Seq<char>, d2: Seq<char>)
    requires
        a1 + seq!['-'] + d1 == a2 + seq!['-'] + d2,
        forall|i: int| 0 <= i < d1.len() ==> #[trigger] d1[i] != '-',
        forall|i: int| 0 <= i < d2.len() ==> #[trigger] d2[i] != '-',
    ensures
        a1 == a2,
        d1 == d2,
{
    let s1 = a1 + seq!['-'] + d1;
    let s2 = a2 + seq!['-'] + d2;
    assert(s1[a1.len() as int] == '-');
    assert(s2[a2.len() as int] == '-');
    assert(s1.len() == a1.len() + 1 + d1.len());
    assert(s2.len() == a2.len() + 1 + d2.len());
    if a1.len() < a2.len() {
        assert(s1[a2.len() as int] == d1[a2.len() - a1.len() - 1]);
    } else if a2.len() < a1.len() {
        assert(s2[a1.len() as int] == d2[a1.len() - a2.len() - 1]);
    }
    assert(a1 =~= s1.take(a1.len() as int));
    assert(a2 =~= s2.take(a2.len() as int));
    assert(d1 =~= s1.skip(a1.len() as int + 1));
    assert(d2 =~= s2.skip(a2.len() as int + 1));
}

/// An identifier tells the conversation, the time and the counter's number that it
/// was built from: two that differ in any of them are different.
pub proof fn law_reply_id_injective(c1: Seq<char>, t1: u64, n1: u64, c2: Seq<char>, t2: u64, n2: u64)
    requires
        reply_id(c1, t1, n1) == reply_id(c2, t2, n2),
    ensures
        c1 == c2,
        t1 == t2,
        n1 == n2,
{
    reveal_strlit("-r-");
    reveal_strlit("-");
    let d1 = decimal(t1 as nat);
    let d2 = decimal(t2 as nat);
    let e1 = decimal(n1 as nat);
    let e2 = decimal(n2 as nat);
    lemma_decimal_digits(t1 as nat);
    lemma_decimal_digits(t2 as nat);
    lemma_decimal_digits(n1 as nat);
    lemma_decimal_digits(n2 as nat);
    assert("-"@ =~= seq!['-']);
    assert("-r-"@ =~= seq!['-', 'r'] + seq!['-']);
    let h1 = c1 + "-r-"@ + d1;
    let h2 = c2 + "-r-"@ + d2;
    lemma_last_dash(h1, e1, h2, e2);
    let g1 = c1 + seq!['-', 'r'];
    let g2 = c2 + seq!['-', 'r'];
    assert(h1 =~= g1 + seq!['-'] + d1);
    assert(h2 =~= g2 + seq!['-'] + d2);
    lemma_last_dash(g1, d1, g2, d2);
    assert(c1 =~= g1.take(g1.len() - 2));
    assert(c2 =~= g2.take(g2.len() - 2));
    lemma_decimal_injective(t1 as nat, t2 as nat);
    lemma_decimal_injective(n1 as nat, n2 as nat);
}

/// Replies that draw from one counter have different identifiers, whatever their
/// conversations and however close in time: the counter repeats a number only after
/// as many draws as it can count.
pub proof fn law_fresh_ids_distinct(
    start: u64,
    i: nat,
    j: nat,
    c1: Seq<char>,
    t1: u64,
    c2: Seq<char>,
    t2: u64,
)
    requires
        i < j,
        j - i < 0x1_0000_0000_0000_0000,
    ensures
        reply_id(c1, t1, drawn(start, i)) != reply_id(c2, t2, drawn(start, j)),
{
    law_counter_counts(start, i);
    law_counter_counts(start, j);
    if reply_id(c1, t1, drawn(start, i)) == reply_id(c2, t2, drawn(start, j)) {
        law_reply_id_injective(c1, t1, drawn(start, i), c2, t2, drawn(start, j));
    }
}

/// A reply belongs to its request: it stays in the conversation, goes back to the
/// sender from the one addressed, names the request as what it answers, and nests no
/// record. What it says, of which kind and when, is what it was built with, and its
/// identifier is made of the conversation, the time and the counter's number.
pub proof fn law_reply_correlated(
    request: EnvelopeView,
    kind: MessageKind,
    body: Seq<char>,
    ts_ms: u64,
    n: u64,
)
    ensures
        ({
            let reply = fresh_reply(request, kind, body, ts_ms, n);
            &&& reply.conversation_id == request.conversation_id
            &&& reply.from == request.to
            &&& reply.to == request.from
            &&& reply.in_reply_to == Some(request.message_id)
            &&& reply.exchange is None
            &&& reply.kind == kind
            &&& reply.body == body
            &&& reply.ts_ms == ts_ms
            &&& reply.message_id == request.conversation_id + "-r-"@ + decimal(ts_ms as nat) + "-"@
                + decimal(n as nat)
        }),
{
}

/// Answering an answer restores the addresses.
pub proof fn law_addressing_swaps_back(
    request: EnvelopeView,
    id1: Seq<char>,
    kind1: MessageKind,
    body1: Seq<char>,
    ts1: u64,
    id2: Seq<char>,
    kind2: MessageKind,
    body2: Seq<char>,
    ts2: u64,
)
    ensures
        ({
            let back = reply_to(reply_to(request, id1, kind1, body1, ts1), id2, kind2, body2, ts2);
            &&& back.from == request.from
            &&& back.to == request.to
            &&& back.conversation_id == request.conversation_id
            &&& back.in_reply_to == Some(id1)
        }),
{
}

/// Each kind has its own name in an envelope.
pub proof fn law_wire_names(kind: MessageKind)
    ensures
        kind == MessageKind::Request ==> kind.wire() == "request"@,
        kind == MessageKind::Response ==> kind.wire() == "response"@,
        kind == MessageKind::Done ==> kind.wire() == "done"@,
        kind == MessageKind::Error ==> kind.wire() == "error"@,
        kind == MessageKind::Notify ==> kind.wire() == "notify"@,
{
}

/// What is said of an envelope is said of all that it holds, field by field.
pub proof fn law_envelope_by_its_fields(envelope: MessageEnvelope)
    ensures
        envelope@.message_id == envelope.message_id@,
        envelope@.conversation_id == envelope.conversation_id@,
        envelope@.from == envelope.from@,
        envelope@.to == envelope.to@,
        envelope@.kind == envelope.kind,
        envelope@.body == envelope.body@,
        envelope@.ts_ms == envelope.ts_ms,
        match envelope.in_reply_to {
            Some(id) => envelope@.in_reply_to == Some(id@),
            None => envelope@.in_reply_to is None,
        },
        match envelope.exchange {
            Some(wrapped) => envelope@.exchange == Some(wrapped@),
            None => envelope@.exchange is None,
        },
{
}

} // verus!
