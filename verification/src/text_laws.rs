//! What holds of blank text, of trimming, of final lines and of numbers.

use vstd::prelude::*;

use crate::outside::debug_text;
use crate::text::{
    blank, decimal, digit, final_line, is_white, law_final_line, lemma_blank_has_no_final_line,
    quoted, trim_end, trim_start, trimmed,
};

verus! {

/// The characters that count as whitespace, one by one.
pub proof fn law_whitespace_characters(c: char)
    ensures
        is_white(c) <==> (c == '\t' || c == '\n' || c == '\u{b}' || c == '\u{c}' || c == '\r' || c
            == ' ' || c == '\u{85}' || c == '\u{a0}' || c == '\u{1680}' || c == '\u{2000}' || c
            == '\u{2001}' || c == '\u{2002}' || c == '\u{2003}' || c == '\u{2004}' || c
            == '\u{2005}' || c == '\u{2006}' || c == '\u{2007}' || c == '\u{2008}' || c
            == '\u{2009}' || c == '\u{200a}' || c == '\u{2028}' || c == '\u{2029}' || c
            == '\u{202f}' || c == '\u{205f}' || c == '\u{3000}'),
{
}

/// Text is blank exactly where each of its parts is: the empty text is, a single character
/// is where it is whitespace, and two texts put together are where both are.
pub proof fn law_blank_by_parts(c: char, a: Seq<char>, b: Seq<char>)
    ensures
        blank(Seq::empty()),
        blank(seq![c]) <==> is_white(c),
        blank(a + b) <==> blank(a) && blank(b),
{
    assert(seq![c][0] == c);
    if blank(a + b) {
        assert forall|i: int| 0 <= i < a.len() implies is_white(#[trigger] a[i]) by {
            assert((a + b)[i] == a[i]);
        }
        assert forall|i: int| 0 <= i < b.len() implies is_white(#[trigger] b[i]) by {
            assert((a + b)[a.len() + i] == b[i]);
        }
    }
}

/// `core` neither begins nor ends with whitespace.
pub open spec fn bare_ends(core: Seq<char>) -> bool {
    core.len() > 0 ==> !is_white(core[0]) && !is_white(core[core.len() - 1])
}

proof fn lemma_trim_start_of(a: Seq<char>, rest: Seq<char>)
    requires
        blank(a),
        rest.len() > 0 ==> !is_white(rest[0]),
    ensures
        trim_start(a + rest) == rest,
    decreases a.len(),
{
    if a.len() == 0 {
        assert(a + rest =~= rest);
    } else {
        assert(is_white(a[0]));
        assert((a + rest).drop_first() =~= a.drop_first() + rest);
        assert forall|i: int| 0 <= i < a.drop_first().len() implies is_white(
            #[trigger] a.drop_first()[i],
        ) by {
            assert(a.drop_first()[i] == a[i + 1]);
        }
        lemma_trim_start_of(a.drop_first(), rest);
    }
}

proof fn lemma_trim_start_of_blank(a: Seq<char>)
    requires
        blank(a),
    ensures
        trim_start(a).len() == 0,
{
    assert(a + Seq::<char>::empty() =~= a);
    lemma_trim_start_of(a, Seq::empty());
}

proof fn lemma_trim_end_of(core: Seq<char>, b: Seq<char>)
    requires
        blank(b),
        core.len() > 0 ==> !is_white(core[core.len() - 1]),
    ensures
        trim_end(core + b) == core,
    decreases b.len(),
{
    if b.len() == 0 {
        assert(core + b =~= core);
    } else {
        assert(is_white(b[b.len() - 1]));
        assert((core + b).drop_last() =~= core + b.drop_last());
        assert forall|i: int| 0 <= i < b.drop_last().len() implies is_white(
            #[trigger] b.drop_last()[i],
        ) by {
            assert(b.drop_last()[i] == b[i]);
        }
        lemma_trim_end_of(core, b.drop_last());
    }
}

/// Trimming takes off the whitespace at both ends and nothing else.
pub proof fn law_trimmed_is_the_core(a: Seq<char>, core: Seq<char>, b: Seq<char>)
    requires
        blank(a),
        blank(b),
        bare_ends(core),
    ensures
        trimmed(a + core + b) == core,
{
    if core.len() == 0 {
        law_blank_by_parts(' ', a, b);
        assert(a + core + b =~= a + b);
        lemma_trim_start_of_blank(a + b);
        assert(trim_start(a + b) =~= core);
    } else {
        assert(a + core + b =~= a + (core + b));
        assert((core + b)[0] == core[0]);
        lemma_trim_start_of(a, core + b);
        lemma_trim_end_of(core, b);
    }
}

/// Exactly blank text has no final line. Otherwise the final line is the last one that is
/// not blank, without the whitespace around it: whatever stands above it, and whatever
/// whitespace, blank lines included, stands behind it.
pub proof fn law_final_line_is_the_last_filled(
    above: Seq<char>,
    a: Seq<char>,
    core: Seq<char>,
    b: Seq<char>,
    tail: Seq<char>,
)
    requires
        blank(a),
        blank(b),
        bare_ends(core),
        core.len() > 0,
        forall|i: int|
            0 <= i < (a + core + b).len() ==> #[trigger] (a + core + b)[i] != '\n',
        blank(tail),
    ensures
        final_line(tail) is None,
        final_line(a + core + b + tail) == Some(core),
        final_line(above + seq!['\n'] + (a + core + b + tail)) == Some(core),
{
    let line = a + core + b;
    lemma_blank_has_no_final_line(tail);
    assert(line[a.len() as int] == core[0]);
    assert(!blank(line));
    law_final_line(above, line, tail);
    law_trimmed_is_the_core(a, core, b);
}

/// The number that a row of decimal digits denotes.
pub open spec fn denoted(digits: Seq<char>) -> nat
    decreases digits.len(),
{
    if digits.len() == 0 {
        0
    } else {
        denoted(digits.drop_last()) * 10 + (digits.last() as u32 - '0' as u32) as nat
    }
}

/// Decimal notation denotes its number, in digits alone and without a leading zero.
pub proof fn law_decimal_denotes(n: nat)
    ensures
        denoted(decimal(n)) == n,
        decimal(n).len() > 0,
        forall|i: int| 0 <= i < decimal(n).len() ==> '0' <= #[trigger] decimal(n)[i] <= '9',
        decimal(n)[0] == '0' ==> n == 0 && decimal(n).len() == 1,
    decreases n,
{
    let last = n % 10;
    assert(digit(last) as u32 - '0' as u32 == last);
    if n >= 10 {
        law_decimal_denotes(n / 10);
        assert(decimal(n).drop_last() =~= decimal(n / 10));
        assert(decimal(n)[0] == decimal(n / 10)[0]);
    } else {
        assert(decimal(n).drop_last() =~= Seq::<char>::empty());
        reveal_with_fuel(denoted, 2);
    }
}

/// Text of printable ASCII characters without quotes and backslashes stands in double
/// quotes as it is, and other text as its escaped form.
pub proof fn law_quoted_text(s: Seq<char>)
    ensures
        (forall|i: int|
            0 <= i < s.len() ==> ' ' <= #[trigger] s[i] <= '~' && s[i] != '"' && s[i] != '\''
                && s[i] != '\\') ==> quoted(s) == seq!['"'] + s + seq!['"'],
        quoted(s) == seq!['"'] + s + seq!['"'] || quoted(s) == debug_text(s),
{
}

} // verus!
