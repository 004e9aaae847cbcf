//! Bytes read as text.

use vstd::prelude::*;
use vstd::utf8::{
    decode_utf8, decode_utf8_split, encode_utf8, encode_utf8_decode_utf8, encode_utf8_valid_utf8,
    is_char_boundary, is_char_boundary_iff_not_is_continuation_byte, length_of_first_scalar,
    pop_first_scalar, valid_first_scalar, valid_utf8, valid_utf8_concat, valid_utf8_split,
};

use crate::outside::lossy_text;

verus! {

/// The line feed, which no longer UTF-8 sequence has a part of.
pub const LINE_FEED: u8 = 0x0a;

/// Where the last line feed of `bytes` stands, or -1 where there is none.
pub open spec fn last_feed(bytes: Seq<u8>) -> int
    decreases bytes.len(),
{
    if bytes.len() == 0 {
        -1
    } else if bytes.last() == LINE_FEED {
        bytes.len() - 1
    } else {
        last_feed(bytes.drop_last())
    }
}

/// The character that stands for bytes that are not UTF-8.
pub const REPLACEMENT: char = '\u{fffd}';

/// How many bytes at the start of `bytes` are UTF-8.
pub open spec fn decodable(bytes: Seq<u8>) -> nat
    decreases bytes.len(),
{
    if bytes.len() > 0 && valid_first_scalar(bytes) {
        (length_of_first_scalar(bytes) + decodable(pop_first_scalar(bytes))) as nat
    } else {
        0
    }
}

/// The text that bytes which do not begin with UTF-8 are read as: a replacement character
/// for what cannot be decoded, and what is read behind it.
pub open spec fn replaced_text(bytes: Seq<u8>) -> Seq<char> {
    seq![REPLACEMENT] + if bytes.len() <= 1 {
        Seq::empty()
    } else {
        lossy_text(bytes)
    }
}

/// The text that one line of bytes is read as: what is UTF-8 is decoded.
pub open spec fn line_text(line: Seq<u8>) -> Seq<char> {
    if valid_utf8(line) {
        decode_utf8(line)
    } else {
        let k = decodable(line) as int;
        decode_utf8(line.take(k)) + replaced_text(line.skip(k))
    }
}

/// The text that bytes are read as. Each line is read by itself.
pub open spec fn text_of(bytes: Seq<u8>) -> Seq<char>
    decreases bytes.len(),
{
    proof {
        lemma_last_feed(bytes);
    }
    let k = last_feed(bytes);
    if k < 0 {
        line_text(bytes)
    } else {
        text_of(bytes.take(k)) + seq!['\n'] + line_text(bytes.skip(k + 1))
    }
}

pub proof fn lemma_last_feed(bytes: Seq<u8>)
    ensures
        -1 <= last_feed(bytes) < bytes.len(),
        last_feed(bytes) >= 0 ==> bytes[last_feed(bytes)] == LINE_FEED,
    decreases bytes.len(),
{
    if bytes.len() > 0 {
        lemma_last_feed(bytes.drop_last());
    }
}

proof fn lemma_last_feed_of_joined(a: Seq<u8>, b: Seq<u8>)
    ensures
        last_feed(a + seq![LINE_FEED] + b) == a.len() + 1 + last_feed(b),
    decreases b.len(),
{
    let whole = a + seq![LINE_FEED] + b;
    if b.len() > 0 {
        assert(whole.drop_last() =~= a + seq![LINE_FEED] + b.drop_last());
        lemma_last_feed_of_joined(a, b.drop_last());
    }
}

/// A line feed parts what is read: what stands before it and what stands after it are
/// read by themselves.
pub proof fn law_lines_read_apart(a: Seq<u8>, b: Seq<u8>)
    ensures
        text_of(a + seq![LINE_FEED] + b) == text_of(a) + seq!['\n'] + text_of(b),
    decreases b.len(),
{
    let whole = a + seq![LINE_FEED] + b;
    let k = last_feed(b);
    lemma_last_feed(b);
    lemma_last_feed_of_joined(a, b);
    if k < 0 {
        assert(whole.take(a.len() as int) =~= a);
        assert(whole.skip(a.len() as int + 1) =~= b);
    } else {
        law_lines_read_apart(a, b.take(k));
        assert(whole.take(a.len() + 1 + k) =~= a + seq![LINE_FEED] + b.take(k));
        assert(whole.skip(a.len() + 1 + k + 1) =~= b.skip(k + 1));
        assert(text_of(whole) =~= text_of(a) + seq!['\n'] + text_of(b));
    }
}

/// UTF-8 is decoded as it is.
pub proof fn law_utf8_decoded(bytes: Seq<u8>)
    requires
        valid_utf8(bytes),
    ensures
        text_of(bytes) == decode_utf8(bytes),
    decreases bytes.len(),
{
    let k = last_feed(bytes);
    lemma_last_feed(bytes);
    if k >= 0 {
        is_char_boundary_iff_not_is_continuation_byte(bytes, k);
        assert(is_char_boundary(bytes, k));
        valid_utf8_split(bytes, k);
        decode_utf8_split(bytes, k);
        assert(bytes.subrange(0, k) =~= bytes.take(k));
        law_utf8_decoded(bytes.take(k));
        let rest = bytes.subrange(k, bytes.len() as int);
        assert(rest[0] == LINE_FEED);
        assert(pop_first_scalar(rest) =~= bytes.skip(k + 1));
        assert(0x0au8 as u32 & 0x7f == 0x0a) by (bit_vector);
        assert(decode_utf8(rest) =~= seq!['\n'] + decode_utf8(bytes.skip(k + 1)));
        assert(text_of(bytes) =~= decode_utf8(bytes));
    }
}

/// What is counted as decodable is UTF-8, and it is all of the bytes exactly where they are.
pub proof fn law_decodable_start(bytes: Seq<u8>)
    ensures
        decodable(bytes) <= bytes.len(),
        valid_utf8(bytes.take(decodable(bytes) as int)),
        valid_utf8(bytes) <==> decodable(bytes) == bytes.len(),
    decreases bytes.len(),
{
    let k = decodable(bytes) as int;
    if bytes.len() > 0 && valid_first_scalar(bytes) {
        let n = length_of_first_scalar(bytes);
        let rest = pop_first_scalar(bytes);
        law_decodable_start(rest);
        let start = bytes.take(k);
        assert(start.len() >= n);
        assert(pop_first_scalar(start) =~= rest.take(k - n));
        assert(valid_first_scalar(start));
    } else {
        assert(bytes.take(0) =~= Seq::<u8>::empty());
    }
}

/// Bytes that are not UTF-8 are read as text that shows it: a replacement character stands
/// in it.
pub proof fn law_undecodable_is_replaced(bytes: Seq<u8>)
    requires
        !valid_utf8(bytes),
    ensures
        text_of(bytes).contains(REPLACEMENT),
    decreases bytes.len(),
{
    let k = last_feed(bytes);
    lemma_last_feed(bytes);
    if k < 0 {
        let start = decode_utf8(bytes.take(decodable(bytes) as int));
        assert(text_of(bytes)[start.len() as int] == REPLACEMENT);
    } else {
        let before = bytes.take(k);
        let line = bytes.skip(k + 1);
        let above = text_of(before);
        if !valid_utf8(before) {
            law_undecodable_is_replaced(before);
            let i = choose|i: int| 0 <= i < above.len() && above[i] == REPLACEMENT;
            assert(text_of(bytes)[i] == REPLACEMENT);
        } else if !valid_utf8(line) {
            let start = decode_utf8(line.take(decodable(line) as int));
            assert(text_of(bytes)[above.len() as int + 1 + start.len()] == REPLACEMENT);
        } else {
            let feed = seq![LINE_FEED];
            assert(valid_utf8(feed)) by {
                reveal_with_fuel(valid_utf8, 2);
            }
            valid_utf8_concat(before, feed);
            valid_utf8_concat(before + feed, line);
            assert(before + feed + line =~= bytes);
        }
    }
}

/// A lone byte that is not UTF-8 is read as one replacement character.
pub proof fn law_lone_byte_is_replaced(byte: u8)
    requires
        !valid_utf8(seq![byte]),
    ensures
        text_of(seq![byte]) == seq![REPLACEMENT],
{
    let bytes = seq![byte];
    assert(bytes.drop_last() =~= Seq::<u8>::empty());
    assert(valid_utf8(seq![LINE_FEED])) by {
        reveal_with_fuel(valid_utf8, 2);
    }
    assert(last_feed(bytes) == -1) by {
        reveal_with_fuel(last_feed, 2);
    }
    if valid_first_scalar(bytes) {
        assert(pop_first_scalar(bytes) =~= Seq::<u8>::empty());
        reveal_with_fuel(valid_utf8, 2);
    }
    assert(decodable(bytes) == 0);
    assert(bytes.take(0) =~= Seq::<u8>::empty());
    assert(bytes.skip(0) =~= bytes);
    assert(decode_utf8(bytes.take(0)) =~= Seq::<char>::empty());
    assert(text_of(bytes) =~= seq![REPLACEMENT]);
}

/// Text that is written as UTF-8 is read back.
pub proof fn law_text_read_back(text: Seq<char>)
    ensures
        text_of(encode_utf8(text)) == text,
{
    encode_utf8_valid_utf8(text);
    encode_utf8_decode_utf8(text);
    law_utf8_decoded(encode_utf8(text));
}

/// Of a line that is not UTF-8, what stands before the first bytes that cannot be decoded is
/// decoded as it is, and a replacement character follows it.
pub proof fn law_start_of_a_broken_line(start: Seq<u8>, rest: Seq<u8>)
    requires
        valid_utf8(start),
        rest.len() > 0,
        !valid_first_scalar(rest),
        last_feed(start + rest) < 0,
    ensures
        text_of(start + rest).len() > decode_utf8(start).len(),
        text_of(start + rest).take(decode_utf8(start).len() as int) == decode_utf8(start),
        text_of(start + rest)[decode_utf8(start).len() as int] == REPLACEMENT,
{
    lemma_decodable_of(start, rest);
    let line = start + rest;
    assert(line.take(start.len() as int) =~= start);
    assert(text_of(line).take(decode_utf8(start).len() as int) =~= decode_utf8(start));
}

proof fn lemma_decodable_of(start: Seq<u8>, rest: Seq<u8>)
    requires
        valid_utf8(start),
        rest.len() > 0,
        !valid_first_scalar(rest),
    ensures
        decodable(start + rest) == start.len(),
        !valid_utf8(start + rest),
    decreases start.len(),
{
    let line = start + rest;
    if start.len() == 0 {
        assert(line =~= rest);
    } else {
        let n = length_of_first_scalar(start);
        assert(valid_first_scalar(line));
        assert(pop_first_scalar(line) =~= pop_first_scalar(start) + rest);
        lemma_decodable_of(pop_first_scalar(start), rest);
    }
}

} // verus!
