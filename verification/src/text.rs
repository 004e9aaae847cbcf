//! Text: the whitespace, line and number notions that the rest of the library
//! speaks of, over sequences of characters, and the functions that compute them.

use vstd::prelude::*;

use crate::outside::{char_is_whitespace, debug_text};

verus! {

broadcast use vstd::string::group_string_axioms;

/// The characters with the Unicode `White_Space` property.
pub open spec fn is_white(c: char) -> bool {
    let n = c as u32;
    ||| 0x09 <= n <= 0x0d
    ||| n == 0x20
    ||| n == 0x85
    ||| n == 0xa0
    ||| n == 0x1680
    ||| 0x2000 <= n <= 0x200a
    ||| n == 0x2028
    ||| n == 0x2029
    ||| n == 0x202f
    ||| n == 0x205f
    ||| n == 0x3000
}

/// Every character is whitespace.
pub open spec fn blank(s: Seq<char>) -> bool {
    forall|i: int| 0 <= i < s.len() ==> is_white(#[trigger] s[i])
}

/// `s` without its leading whitespace.
pub open spec fn trim_start(s: Seq<char>) -> Seq<char>
    decreases s.len(),
{
    if s.len() > 0 && is_white(s[0]) {
        trim_start(s.drop_first())
    } else {
        s
    }
}

/// `s` without its trailing whitespace.
pub open spec fn trim_end(s: Seq<char>) -> Seq<char>
    decreases s.len(),
{
    if s.len() > 0 && is_white(s.last()) {
        trim_end(s.drop_last())
    } else {
        s
    }
}

/// `s` without its leading and trailing whitespace.
pub open spec fn trimmed(s: Seq<char>) -> Seq<char> {
    trim_end(trim_start(s))
}

/// The lines of `s`: its parts between line feeds.
pub open spec fn lines(s: Seq<char>) -> Seq<Seq<char>>
    decreases s.len(),
{
    if s.len() == 0 {
        seq![Seq::empty()]
    } else {
        let before = lines(s.drop_last());
        if s.last() == '\n' {
            before.push(Seq::empty())
        } else {
            before.drop_last().push(before.last().push(s.last()))
        }
    }
}

/// The last of `parts` that is not blank.
pub open spec fn last_filled(parts: Seq<Seq<char>>) -> Option<Seq<char>>
    decreases parts.len(),
{
    if parts.len() == 0 {
        None
    } else if blank(parts.last()) {
        last_filled(parts.drop_last())
    } else {
        Some(parts.last())
    }
}

/// The last line of `s` that is not blank, trimmed.
pub open spec fn final_line(s: Seq<char>) -> Option<Seq<char>> {
    match last_filled(lines(s)) {
        Some(line) => Some(trimmed(line)),
        None => None,
    }
}

/// Every character is a printable ASCII one that is neither a quote nor a backslash.
pub open spec fn plain(s: Seq<char>) -> bool {
    forall|i: int|
        0 <= i < s.len() ==> {
            let c = #[trigger] s[i];
            ' ' <= c <= '~' && c != '"' && c != '\'' && c != '\\'
        }
}

/// `s` in quotes, as `{:?}` writes it.
pub open spec fn quoted(s: Seq<char>) -> Seq<char> {
    if plain(s) {
        seq!['"'] + s + seq!['"']
    } else {
        debug_text(s)
    }
}

/// The decimal digit character of `d`.
pub open spec fn digit(d: nat) -> char {
    (('0' as u32) + d) as char
}

/// The decimal notation of `n`, without leading zeros.
pub open spec fn decimal(n: nat) -> Seq<char>
    decreases n,
{
    if n < 10 {
        seq![digit(n)]
    } else {
        decimal(n / 10).push(digit(n % 10))
    }
}

/// The characters of `s`, in order.
pub fn chars_of(s: &str) -> (chars: Vec<char>)
    ensures
        chars@ == s@,
{
    let mut chars: Vec<char> = Vec::new();
    for c in iter: s.chars()
        invariant
            iter.seq() == s@,
            chars@ == s@.take(iter.index()),
    {
        chars.push(c);
        assert(chars@ =~= s@.take(iter.index() + 1));
    }
    assert(s@.take(s@.len() as int) =~= s@);
    chars
}

/// The text of `chars[from..to]`.
pub fn text_between(chars: &Vec<char>, from: usize, to: usize) -> (s: String)
    requires
        from <= to <= chars.len(),
    ensures
        s@ == chars@.subrange(from as int, to as int),
{
    let mut s = String::new();
    let mut i: usize = from;
    while i < to
        invariant
            from <= i <= to <= chars.len(),
            s@ == chars@.subrange(from as int, i as int),
        decreases to - i,
    {
        s.push(chars[i]);
        i += 1;
        assert(s@ =~= chars@.subrange(from as int, i as int));
    }
    s
}

/// A copy of `list`.
pub fn copy_texts(list: &Vec<String>) -> (copy: Vec<String>)
    ensures
        copy.deep_view() == list.deep_view(),
{
    let mut copy: Vec<String> = Vec::new();
    let mut i: usize = 0;
    while i < list.len()
        invariant
            i <= list.len(),
            copy.len() == i,
            forall|j: int| 0 <= j < i ==> #[trigger] copy@[j]@ == list@[j]@,
        decreases list.len() - i,
    {
        copy.push(list[i].clone());
        i += 1;
    }
    assert(copy.deep_view() =~= list.deep_view());
    copy
}

/// A copy of `list`.
pub fn copy_pairs(list: &Vec<(String, String)>) -> (copy: Vec<(String, String)>)
    ensures
        copy.deep_view() == list.deep_view(),
{
    let mut copy: Vec<(String, String)> = Vec::new();
    let mut i: usize = 0;
    while i < list.len()
        invariant
            i <= list.len(),
            copy.len() == i,
            forall|j: int| 0 <= j < i ==> #[trigger] copy@[j].deep_view() == list@[j].deep_view(),
        decreases list.len() - i,
    {
        copy.push((list[i].0.clone(), list[i].1.clone()));
        i += 1;
    }
    assert(copy.deep_view() =~= list.deep_view());
    copy
}

/// Whether `s` has no character but whitespace.
pub fn is_blank(s: &str) -> (res: bool)
    ensures
        res == blank(s@),
{
    for c in iter: s.chars()
        invariant
            iter.seq() == s@,
            forall|j: int| 0 <= j < iter.index() ==> is_white(#[trigger] s@[j]),
    {
        if !char_is_whitespace(c) {
            assert(!is_white(s@[iter.index()]));
            return false;
        }
    }
    true
}

proof fn lemma_trim_start_skips(s: Seq<char>, n: int)
    requires
        0 <= n <= s.len(),
        forall|j: int| 0 <= j < n ==> is_white(#[trigger] s[j]),
        n < s.len() ==> !is_white(s[n]),
    ensures
        trim_start(s) == s.skip(n),
    decreases n,
{
    if n == 0 {
        assert(s.skip(0) =~= s);
    } else {
        assert(is_white(s[0]));
        assert forall|j: int| 0 <= j < n - 1 implies is_white(#[trigger] s.drop_first()[j]) by {
            assert(s.drop_first()[j] == s[j + 1]);
        }
        lemma_trim_start_skips(s.drop_first(), n - 1);
        assert(s.drop_first().skip(n - 1) =~= s.skip(n));
    }
}

proof fn lemma_trim_end_takes(s: Seq<char>, n: int)
    requires
        0 <= n <= s.len(),
        forall|j: int| n <= j < s.len() ==> is_white(#[trigger] s[j]),
        n > 0 ==> !is_white(s[n - 1]),
    ensures
        trim_end(s) == s.take(n),
    decreases s.len() - n,
{
    if n == s.len() {
        assert(s.take(n) =~= s);
    } else {
        assert(is_white(s[s.len() - 1]));
        lemma_trim_end_takes(s.drop_last(), n);
        assert(s.drop_last().take(n) =~= s.take(n));
    }
}

/// The characters of `chars[from..to]` without leading and trailing whitespace.
pub fn trim_between(chars: &Vec<char>, from: usize, to: usize) -> (s: String)
    requires
        from <= to <= chars.len(),
    ensures
        s@ == trimmed(chars@.subrange(from as int, to as int)),
{
    let ghost all = chars@.subrange(from as int, to as int);
    let mut start: usize = from;
    while start < to && char_is_whitespace(chars[start])
        invariant
            from <= start <= to <= chars.len(),
            all == chars@.subrange(from as int, to as int),
            forall|j: int| 0 <= j < start - from ==> is_white(#[trigger] all[j]),
        decreases to - start,
    {
        start += 1;
    }
    let ghost rest = all.skip(start - from);
    proof {
        if start < to {
            assert(all[start - from] == chars@[start as int]);
        }
        lemma_trim_start_skips(all, start - from);
    }
    let mut end: usize = to;
    while end > start && char_is_whitespace(chars[end - 1])
        invariant
            from <= start <= end <= to <= chars.len(),
            rest == chars@.subrange(from as int, to as int).skip(start - from),
            forall|j: int| end - start <= j < rest.len() ==> is_white(#[trigger] rest[j]),
        decreases end,
    {
        end -= 1;
    }
    proof {
        if end > start {
            assert(rest[end - start - 1] == chars@[end - 1]);
        }
        lemma_trim_end_takes(rest, end - start);
        assert(rest.take(end - start) =~= chars@.subrange(start as int, end as int));
    }
    text_between(chars, start, end)
}

/// `s` without leading and trailing whitespace.
pub fn trim(s: &str) -> (res: String)
    ensures
        res@ == trimmed(s@),
{
    let chars = chars_of(s);
    assert(chars@.subrange(0, chars@.len() as int) =~= s@);
    trim_between(&chars, 0, chars.len())
}

proof fn lemma_lines_nonempty(s: Seq<char>)
    ensures
        lines(s).len() > 0,
    decreases s.len(),
{
    if s.len() > 0 {
        lemma_lines_nonempty(s.drop_last());
    }
}

/// The last line of `s` that is not blank, trimmed.
pub fn find_final_line(s: &str) -> (line: Option<String>)
    ensures
        line.deep_view() == final_line(s@),
{
    let chars = chars_of(s);
    // The last filled line that has ended, and where the current one begins.
    let mut found: bool = false;
    let mut found_from: usize = 0;
    let mut found_to: usize = 0;
    let mut from: usize = 0;
    let mut filled: bool = false;
    let mut i: usize = 0;
    proof {
        assert(chars@.take(0) =~= Seq::<char>::empty());
        assert(lines(chars@.take(0)).drop_last() =~= Seq::<Seq<char>>::empty());
        assert(chars@.subrange(0, 0) =~= Seq::<char>::empty());
    }
    while i < chars.len()
        invariant
            chars@ == s@,
            from <= i <= chars.len(),
            found_from <= found_to <= chars.len(),
            lines(chars@.take(i as int)).len() > 0,
            lines(chars@.take(i as int)).last() == chars@.subrange(from as int, i as int),
            filled == !blank(chars@.subrange(from as int, i as int)),
            last_filled(lines(chars@.take(i as int)).drop_last()) == if found {
                Some(chars@.subrange(found_from as int, found_to as int))
            } else {
                None
            },
        decreases chars.len() - i,
    {
        let ghost before = lines(chars@.take(i as int));
        let ghost line = chars@.subrange(from as int, i as int);
        let c = chars[i];
        proof {
            assert(chars@.take(i + 1).drop_last() =~= chars@.take(i as int));
            assert(chars@.take(i + 1).last() == c);
            if c == '\n' {
                assert(before.push(Seq::empty()).drop_last() =~= before);
            } else {
                assert(before.drop_last().push(line.push(c)).drop_last() =~= before.drop_last());
                assert(line.push(c) =~= chars@.subrange(from as int, i + 1));
                assert(line.push(c)[line.len() as int] == c);
                assert(forall|j: int| 0 <= j < line.len() ==> line.push(c)[j] == #[trigger] line[j]);
            }
        }
        if c == '\n' {
            if filled {
                found = true;
                found_from = from;
                found_to = i;
            }
            from = i + 1;
            filled = false;
            assert(chars@.subrange(from as int, i + 1) =~= Seq::<char>::empty());
        } else if !char_is_whitespace(c) {
            filled = true;
        }
        i += 1;
    }
    assert(chars@.take(i as int) =~= chars@);
    if filled {
        Some(trim_between(&chars, from, i))
    } else if found {
        Some(trim_between(&chars, found_from, found_to))
    } else {
        None
    }
}

/// What stands after a line feed has its lines after those of what stands before.
pub proof fn lemma_lines_of_joined(a: Seq<char>, b: Seq<char>)
    ensures
        lines(a + seq!['\n'] + b) == lines(a) + lines(b),
    decreases b.len(),
{
    let whole = a + seq!['\n'] + b;
    if b.len() == 0 {
        assert(whole.drop_last() =~= a);
        assert(lines(whole) =~= lines(a) + lines(b));
    } else {
        assert(whole.drop_last() =~= a + seq!['\n'] + b.drop_last());
        lemma_lines_of_joined(a, b.drop_last());
        lemma_lines_nonempty(b.drop_last());
        let before = lines(b.drop_last());
        assert((lines(a) + before).last() == before.last());
        assert((lines(a) + before).drop_last() =~= lines(a) + before.drop_last());
        assert(lines(whole) =~= lines(a) + lines(b));
    }
}

/// The lines of a line followed by whitespace: the line with whitespace behind it,
/// and blank ones.
proof fn lemma_lines_of_trailing_blank(line: Seq<char>, tail: Seq<char>)
    requires
        forall|i: int| 0 <= i < line.len() ==> #[trigger] line[i] != '\n',
        blank(tail),
    ensures
        ({
            let all = lines(line + tail);
            &&& all.len() > 0
            &&& exists|w: Seq<char>| blank(w) && all[0] == #[trigger] (line + w)
            &&& forall|k: int| 0 < k < all.len() ==> blank(#[trigger] all[k])
        }),
    decreases tail.len(),
{
    let whole = line + tail;
    if tail.len() == 0 {
        lemma_lines_of_bare(line);
        assert(whole =~= line);
        assert(line + Seq::<char>::empty() =~= line);
        assert(blank(Seq::<char>::empty()));
    } else {
        let start = tail.drop_last();
        assert(whole.drop_last() =~= line + start);
        assert(blank(start)) by {
            assert forall|i: int| 0 <= i < start.len() implies is_white(#[trigger] start[i]) by {
                assert(start[i] == tail[i]);
            }
        }
        lemma_lines_of_trailing_blank(line, start);
        let before = lines(line + start);
        let w = choose|w: Seq<char>| blank(w) && before[0] == #[trigger] (line + w);
        let c = whole.last();
        assert(c == tail[tail.len() - 1]);
        let all = lines(whole);
        if c == '\n' {
            assert(all[0] == line + w);
            assert forall|k: int| 0 < k < all.len() implies blank(#[trigger] all[k]) by {
                if k < before.len() {
                    assert(all[k] == before[k]);
                }
            }
        } else {
            let last = before.last().push(c);
            assert(all == before.drop_last().push(last));
            if before.len() == 1 {
                assert(last =~= line + w.push(c));
                assert(blank(w.push(c)));
            } else {
                assert(all[0] == line + w);
                assert(blank(before[before.len() - 1]));
                assert(blank(last));
            }
            assert forall|k: int| 0 < k < all.len() implies blank(#[trigger] all[k]) by {
                if k < before.len() - 1 {
                    assert(all[k] == before[k]);
                }
            }
        }
    }
}

/// Text without line feeds is one line.
proof fn lemma_lines_of_bare(line: Seq<char>)
    requires
        forall|i: int| 0 <= i < line.len() ==> #[trigger] line[i] != '\n',
    ensures
        lines(line) == seq![line],
    decreases line.len(),
{
    if line.len() == 0 {
        assert(line =~= Seq::<char>::empty());
    } else {
        assert(line[line.len() - 1] != '\n');
        assert forall|i: int| 0 <= i < line.drop_last().len() implies #[trigger] line.drop_last()[i]
            != '\n' by {
            assert(line.drop_last()[i] == line[i]);
        }
        lemma_lines_of_bare(line.drop_last());
        assert(line.drop_last().push(line.last()) =~= line);
        assert(seq![line.drop_last()].drop_last() =~= Seq::<Seq<char>>::empty());
    }
    assert(lines(line) =~= seq![line]);
}

proof fn lemma_trim_ignores_trailing(s: Seq<char>, w: Seq<char>)
    requires
        blank(w),
        !blank(s),
    ensures
        trimmed(s + w) == trimmed(s),
    decreases s.len(), w.len(),
{
    if is_white(s[0]) {
        assert((s + w).drop_first() =~= s.drop_first() + w);
        assert(!blank(s.drop_first())) by {
            let i = choose|i: int| 0 <= i < s.len() && !is_white(#[trigger] s[i]);
            assert(s.drop_first()[i - 1] == s[i]);
        }
        lemma_trim_ignores_trailing(s.drop_first(), w);
    } else if w.len() == 0 {
        assert(s + w =~= s);
    } else {
        assert((s + w).drop_last() =~= s + w.drop_last());
        assert((s + w).last() == w[w.len() - 1]);
        assert(blank(w.drop_last())) by {
            assert forall|i: int| 0 <= i < w.drop_last().len() implies is_white(
                #[trigger] w.drop_last()[i],
            ) by {
                assert(w.drop_last()[i] == w[i]);
            }
        }
        lemma_trim_ignores_trailing(s, w.drop_last());
    }
}

proof fn lemma_last_filled_past_blank(parts: Seq<Seq<char>>, k: int)
    requires
        0 <= k < parts.len(),
        !blank(parts[k]),
        forall|j: int| k < j < parts.len() ==> blank(#[trigger] parts[j]),
    ensures
        last_filled(parts) == Some(parts[k]),
    decreases parts.len(),
{
    if k < parts.len() - 1 {
        assert(blank(parts[parts.len() - 1]));
        assert forall|j: int| k < j < parts.drop_last().len() implies blank(
            #[trigger] parts.drop_last()[j],
        ) by {
            assert(parts.drop_last()[j] == parts[j]);
        }
        lemma_last_filled_past_blank(parts.drop_last(), k);
    }
}

/// Whatever lines stand above it and whatever whitespace follows it, a filled last
/// line is the final line.
pub proof fn law_final_line(above: Seq<char>, line: Seq<char>, tail: Seq<char>)
    requires
        forall|i: int| 0 <= i < line.len() ==> #[trigger] line[i] != '\n',
        !blank(line),
        blank(tail),
    ensures
        final_line(line + tail) == Some(trimmed(line)),
        final_line(above + seq!['\n'] + (line + tail)) == Some(trimmed(line)),
{
    lemma_lines_of_trailing_blank(line, tail);
    let own = lines(line + tail);
    let w = choose|w: Seq<char>| blank(w) && own[0] == #[trigger] (line + w);
    lemma_trim_ignores_trailing(line, w);
    assert(!blank(line + w)) by {
        let i = choose|i: int| 0 <= i < line.len() && !is_white(#[trigger] line[i]);
        assert((line + w)[i] == line[i]);
    }
    lemma_last_filled_past_blank(own, 0);
    lemma_lines_of_joined(above, line + tail);
    let all = lines(above) + own;
    let k = lines(above).len() as int;
    assert(all[k] == own[0]);
    assert forall|j: int| k < j < all.len() implies blank(#[trigger] all[j]) by {
        assert(all[j] == own[j - k]);
    }
    lemma_last_filled_past_blank(all, k);
}

proof fn lemma_lines_of_blank(s: Seq<char>)
    requires
        blank(s),
    ensures
        forall|k: int| 0 <= k < lines(s).len() ==> blank(#[trigger] lines(s)[k]),
    decreases s.len(),
{
    if s.len() > 0 {
        let start = s.drop_last();
        assert(blank(start)) by {
            assert forall|i: int| 0 <= i < start.len() implies is_white(#[trigger] start[i]) by {
                assert(start[i] == s[i]);
            }
        }
        lemma_lines_of_blank(start);
        lemma_lines_nonempty(start);
        let before = lines(start);
        assert(is_white(s[s.len() - 1]));
        assert(blank(before[before.len() - 1]));
        assert(blank(before.last().push(s.last())));
        assert forall|k: int| 0 <= k < lines(s).len() implies blank(#[trigger] lines(s)[k]) by {
            if k < before.len() {
                assert(blank(before[k]));
            }
        }
    }
}

proof fn lemma_last_filled_of_blank(parts: Seq<Seq<char>>)
    requires
        forall|k: int| 0 <= k < parts.len() ==> blank(#[trigger] parts[k]),
    ensures
        last_filled(parts) is None,
    decreases parts.len(),
{
    if parts.len() > 0 {
        assert(blank(parts[parts.len() - 1]));
        assert forall|k: int| 0 <= k < parts.drop_last().len() implies blank(
            #[trigger] parts.drop_last()[k],
        ) by {
            assert(blank(parts[k]));
        }
        lemma_last_filled_of_blank(parts.drop_last());
    }
}

/// Blank text has no final line.
pub proof fn lemma_blank_has_no_final_line(s: Seq<char>)
    requires
        blank(s),
    ensures
        final_line(s) is None,
{
    lemma_lines_of_blank(s);
    lemma_last_filled_of_blank(lines(s));
}

fn digit_char(d: u8) -> (c: char)
    requires
        d < 10,
    ensures
        c == digit(d as nat),
{
    (48 + d) as char
}

/// The decimal notation of `n`.
pub fn decimal_text(n: u128) -> (s: String)
    ensures
        s@ == decimal(n as nat),
    decreases n,
{
    let mut s = if n < 10 {
        String::new()
    } else {
        decimal_text(n / 10)
    };
    s.push(digit_char((n % 10) as u8));
    assert(s@ =~= decimal(n as nat));
    s
}

/// Decimal notation holds only digits, and so no separator that a name is built
/// with.
pub proof fn lemma_decimal_digits(n: nat)
    ensures
        decimal(n).len() > 0,
        forall|i: int| 0 <= i < decimal(n).len() ==> '0' <= #[trigger] decimal(n)[i] <= '9',
    decreases n,
{
    if n >= 10 {
        lemma_decimal_digits(n / 10);
    }
}

/// Two numbers with the same decimal notation are equal.
pub proof fn lemma_decimal_injective(a: nat, b: nat)
    requires
        decimal(a) == decimal(b),
    ensures
        a == b,
    decreases a,
{
    lemma_decimal_digits(a / 10);
    lemma_decimal_digits(b / 10);
    assert(decimal(a).last() == digit(a % 10));
    assert(decimal(b).last() == digit(b % 10));
    assert(a % 10 == b % 10);
    if a >= 10 && b >= 10 {
        assert(decimal(a).drop_last() =~= decimal(a / 10));
        assert(decimal(b).drop_last() =~= decimal(b / 10));
        lemma_decimal_injective(a / 10, b / 10);
    }
}

} // verus!
