//! The command line that carries a program and its arguments through `cmd /S /C`
//! to a Windows child process.
//!
//! Two readers see that line. `cmd` reads carets, quotes and metacharacters; the
//! child's C runtime then splits what `cmd` passes on into arguments.
//! The first is modelled here, because what a token needs depends on where the tokens
//! before it leave `cmd`; [`crate::windows_laws`] models the second and states what the
//! child receives.

use vstd::prelude::*;

use crate::text::chars_of;

verus! {

broadcast use vstd::string::group_string_axioms;

/// The characters that `cmd` gives a meaning to.
pub open spec fn is_metachar(c: char) -> bool {
    c == '&' || c == '|' || c == '<' || c == '>' || c == '^' || c == '%' || c == '(' || c == ')'
        || c == '!'
}

/// Some character of `s` is one that `cmd` gives a meaning to.
pub open spec fn has_metachar(s: Seq<char>) -> bool {
    exists|i: int| 0 <= i < s.len() && is_metachar(#[trigger] s[i])
}

/// The characters that an argument can hold only inside quotes.
pub open spec fn is_quoting_char(c: char) -> bool {
    c == ' ' || c == '\t' || c == '"'
}

pub open spec fn has_quoting_char(s: Seq<char>) -> bool {
    exists|i: int| 0 <= i < s.len() && is_quoting_char(#[trigger] s[i])
}

/// A run of `n` backslashes.
pub open spec fn backslashes(n: nat) -> Seq<char> {
    Seq::new(n, |i: int| '\\')
}

/// What stands between the quotes for `s`, read after `pending` backslashes: a
/// run of backslashes is doubled before a quote and before the end, a quote is
/// escaped by one more, and everything else stands for itself.
pub open spec fn quoted_body(s: Seq<char>, pending: nat) -> Seq<char>
    decreases s.len(),
{
    if s.len() == 0 {
        backslashes(2 * pending)
    } else if s[0] == '\\' {
        quoted_body(s.drop_first(), pending + 1)
    } else if s[0] == '"' {
        backslashes(2 * pending + 1) + seq!['"'] + quoted_body(s.drop_first(), 0)
    } else {
        backslashes(pending) + seq![s[0]] + quoted_body(s.drop_first(), 0)
    }
}

/// [`quoted_body`] with a caret before every quote and every metacharacter.
pub open spec fn careted_body(s: Seq<char>, pending: nat) -> Seq<char>
    decreases s.len(),
{
    if s.len() == 0 {
        backslashes(2 * pending)
    } else if s[0] == '\\' {
        careted_body(s.drop_first(), pending + 1)
    } else if s[0] == '"' {
        backslashes(2 * pending + 1) + seq!['^', '"'] + careted_body(s.drop_first(), 0)
    } else if is_metachar(s[0]) {
        backslashes(pending) + seq!['^', s[0]] + careted_body(s.drop_first(), 0)
    } else {
        backslashes(pending) + seq![s[0]] + careted_body(s.drop_first(), 0)
    }
}

/// `token` as the C runtime's quoting convention writes it.
pub open spec fn msvc_arg(token: Seq<char>) -> Seq<char> {
    if has_quoting_char(token) {
        seq!['"'] + quoted_body(token, 0) + seq!['"']
    } else {
        token
    }
}

/// How far `cmd` has read: what it has passed on, whether it stands inside a pair
/// of quotes that it honours, whether a caret was just read, and whether it has
/// met a metacharacter without a caret before it.
#[verifier::ext_equal]
pub struct CmdReader {
    pub passed: Seq<char>,
    pub quoted: bool,
    pub caret: bool,
    pub exposed: bool,
}

pub open spec fn cmd_start() -> CmdReader {
    CmdReader { passed: Seq::empty(), quoted: false, caret: false, exposed: false }
}

/// `cmd` reads one character. A caret outside quotes makes the next character
/// stand for itself; a quote opens or closes a quoted stretch; a metacharacter
/// that no caret protects is exposed, inside quotes too, because `%` expands
/// there.
pub open spec fn cmd_step(r: CmdReader, c: char) -> CmdReader {
    if r.caret {
        CmdReader { passed: r.passed.push(c), caret: false, ..r }
    } else if c == '^' && !r.quoted {
        CmdReader { caret: true, ..r }
    } else if c == '"' {
        CmdReader { passed: r.passed.push(c), quoted: !r.quoted, ..r }
    } else {
        CmdReader { passed: r.passed.push(c), exposed: r.exposed || is_metachar(c), ..r }
    }
}

pub open spec fn cmd_read(r: CmdReader, s: Seq<char>) -> CmdReader
    decreases s.len(),
{
    if s.len() == 0 {
        r
    } else {
        cmd_read(cmd_step(r, s[0]), s.drop_first())
    }
}

/// `token` as it stands in a `cmd` command line, where `quoted` says whether `cmd` stands
/// inside a pair of quotes before it. Carets count only outside quotes, so the opening
/// quote of a token with a metacharacter is careted there, and left bare inside quotes,
/// where it ends them.
pub open spec fn windows_arg(quoted: bool, token: Seq<char>) -> Seq<char> {
    if token.len() == 0 {
        seq!['"', '"']
    } else if has_metachar(token) {
        (if quoted {
            seq!['"']
        } else {
            seq!['^', '"']
        }) + careted_body(token, 0) + seq!['^', '"']
    } else {
        msvc_arg(token)
    }
}

/// `line` with `token` behind it, as [`windows_arg`] writes it there.
pub open spec fn with_windows_arg(line: Seq<char>, token: Seq<char>) -> Seq<char> {
    line + windows_arg(cmd_read(cmd_start(), line).quoted, token)
}

/// The command line of `tokens`: each as [`windows_arg`] writes it, with one
/// space between two of them.
pub open spec fn windows_line(tokens: Seq<Seq<char>>) -> Seq<char>
    decreases tokens.len(),
{
    if tokens.len() == 0 {
        Seq::empty()
    } else if tokens.len() == 1 {
        with_windows_arg(Seq::empty(), tokens[0])
    } else {
        with_windows_arg(windows_line(tokens.drop_last()).push(' '), tokens.last())
    }
}

/// Whether `cmd` gives `ch` a meaning.
pub fn is_windows_cmd_metachar(ch: char) -> (res: bool)
    ensures
        res == is_metachar(ch),
{
    matches!(ch, '&' | '|' | '<' | '>' | '^' | '%' | '(' | ')' | '!')
}

fn push_backslashes(line: &mut String, n: usize)
    ensures
        final(line)@ == old(line)@ + backslashes(n as nat),
{
    let ghost start = line@;
    let mut i: usize = 0;
    assert(line@ =~= start + backslashes(0));
    while i < n
        invariant
            i <= n,
            line@ == start + backslashes(i as nat),
        decreases n - i,
    {
        line.push('\\');
        i += 1;
        assert(line@ =~= start + backslashes(i as nat));
    }
}

fn any_metachar(chars: &Vec<char>) -> (res: bool)
    ensures
        res == has_metachar(chars@),
{
    let mut i: usize = 0;
    while i < chars.len()
        invariant
            i <= chars.len(),
            forall|j: int| 0 <= j < i ==> !is_metachar(#[trigger] chars@[j]),
        decreases chars.len() - i,
    {
        if is_windows_cmd_metachar(chars[i]) {
            assert(is_metachar(chars@[i as int]));
            return true;
        }
        i += 1;
    }
    false
}

fn any_quoting_char(chars: &Vec<char>) -> (res: bool)
    ensures
        res == has_quoting_char(chars@),
{
    let mut i: usize = 0;
    while i < chars.len()
        invariant
            i <= chars.len(),
            forall|j: int| 0 <= j < i ==> !is_quoting_char(#[trigger] chars@[j]),
        decreases chars.len() - i,
    {
        if matches!(chars[i], ' ' | '\t' | '"') {
            assert(is_quoting_char(chars@[i as int]));
            return true;
        }
        i += 1;
    }
    false
}

/// Appends `token` by the C runtime's quoting convention, with nothing in it for
/// `cmd`.
pub fn append_windows_msvc_arg(line: &mut String, token: &str)
    ensures
        final(line)@ == old(line)@ + msvc_arg(token@),
{
    let chars = chars_of(token);
    if !any_quoting_char(&chars) {
        line.append(token);
        return;
    }
    let ghost start = line@;
    line.push('"');
    let mut pending: usize = 0;
    let mut i: usize = 0;
    proof {
        assert(chars@.skip(0) =~= chars@);
        assert(line@ + quoted_body(chars@.skip(0), 0) =~= start + seq!['"'] + quoted_body(chars@, 0));
    }
    while i < chars.len()
        invariant
            i <= chars.len(),
            pending <= i,
            line@ + quoted_body(chars@.skip(i as int), pending as nat) == start + seq!['"']
                + quoted_body(chars@, 0),
        decreases chars.len() - i,
    {
        let ghost before = line@;
        let ghost rest = chars@.skip(i as int);
        let ghost held = pending as nat;
        let ch = chars[i];
        assert(rest.drop_first() =~= chars@.skip(i + 1));
        if ch == '\\' {
            pending += 1;
        } else if ch == '"' {
            push_backslashes(line, pending);
            push_backslashes(line, pending);
            line.push('\\');
            line.push('"');
            pending = 0;
            assert(line@ =~= before + (backslashes(2 * held + 1) + seq!['"']));
        } else {
            push_backslashes(line, pending);
            pending = 0;
            line.push(ch);
            assert(line@ =~= before + (backslashes(held) + seq![ch]));
        }
        i += 1;
        assert(line@ + quoted_body(chars@.skip(i as int), pending as nat) =~= before + quoted_body(
            rest,
            held,
        ));
    }
    push_backslashes(line, pending);
    push_backslashes(line, pending);
    assert(line@ =~= start + seq!['"'] + quoted_body(chars@, 0)) by {
        assert(chars@.skip(i as int).len() == 0);
    }
    line.push('"');
    assert(line@ =~= start + msvc_arg(token@));
}

/// Whether `cmd` stands inside a pair of quotes at the end of `line`.
fn ends_in_quotes(line: &str) -> (res: bool)
    ensures
        res == cmd_read(cmd_start(), line@).quoted,
{
    let chars = chars_of(line);
    let mut quoted: bool = false;
    let mut caret: bool = false;
    let ghost mut reader = cmd_start();
    let mut i: usize = 0;
    assert(chars@.skip(0) =~= chars@);
    while i < chars.len()
        invariant
            i <= chars.len(),
            chars@ == line@,
            reader.quoted == quoted,
            reader.caret == caret,
            cmd_read(reader, chars@.skip(i as int)) == cmd_read(cmd_start(), line@),
        decreases chars.len() - i,
    {
        let c = chars[i];
        proof {
            assert(chars@.skip(i as int).drop_first() =~= chars@.skip(i + 1));
            reader = cmd_step(reader, c);
        }
        if caret {
            caret = false;
        } else if c == '^' && !quoted {
            caret = true;
        } else if c == '"' {
            quoted = !quoted;
        }
        i += 1;
    }
    quoted
}

/// Appends `token` so that it survives both `cmd` and the C runtime, whatever stands in
/// `line` before it: quoted by the C runtime's convention, and, where it holds a
/// metacharacter, with a caret before each metacharacter and each quote. Only the opening
/// quote has none where `cmd` still stands inside quotes, which it ends.
pub fn append_windows_arg(line: &mut String, token: &str)
    ensures
        final(line)@ == with_windows_arg(old(line)@, token@),
{
    let chars = chars_of(token);
    if chars.len() == 0 {
        let ghost start = line@;
        line.push('"');
        line.push('"');
        assert(line@ =~= with_windows_arg(start, token@));
        return;
    }
    if !any_metachar(&chars) {
        append_windows_msvc_arg(line, token);
        return;
    }
    let ghost start = line@;
    let quoted = ends_in_quotes(line.as_str());
    let ghost opening = if quoted {
        seq!['"']
    } else {
        seq!['^', '"']
    };
    if !quoted {
        line.push('^');
    }
    line.push('"');
    let mut pending: usize = 0;
    let mut i: usize = 0;
    proof {
        assert(chars@.skip(0) =~= chars@);
        assert(line@ + careted_body(chars@.skip(0), 0) =~= start + opening + careted_body(
            chars@,
            0,
        ));
    }
    while i < chars.len()
        invariant
            i <= chars.len(),
            pending <= i,
            line@ + careted_body(chars@.skip(i as int), pending as nat) == start + opening
                + careted_body(chars@, 0),
        decreases chars.len() - i,
    {
        let ghost before = line@;
        let ghost rest = chars@.skip(i as int);
        let ghost held = pending as nat;
        let ch = chars[i];
        assert(rest.drop_first() =~= chars@.skip(i + 1));
        if ch == '\\' {
            pending += 1;
        } else if ch == '"' {
            push_backslashes(line, pending);
            push_backslashes(line, pending);
            line.push('\\');
            line.push('^');
            line.push('"');
            pending = 0;
            assert(line@ =~= before + (backslashes(2 * held + 1) + seq!['^', '"']));
        } else if is_windows_cmd_metachar(ch) {
            push_backslashes(line, pending);
            line.push('^');
            line.push(ch);
            pending = 0;
            assert(line@ =~= before + (backslashes(held) + seq!['^', ch]));
        } else {
            push_backslashes(line, pending);
            pending = 0;
            line.push(ch);
            assert(line@ =~= before + (backslashes(held) + seq![ch]));
        }
        i += 1;
        assert(line@ + careted_body(chars@.skip(i as int), pending as nat) =~= before
            + careted_body(rest, held));
    }
    push_backslashes(line, pending);
    push_backslashes(line, pending);
    assert(line@ =~= start + opening + careted_body(chars@, 0)) by {
        assert(chars@.skip(i as int).len() == 0);
    }
    line.push('^');
    line.push('"');
    assert(line@ =~= with_windows_arg(start, token@));
}

/// The argument that follows `cmd /D /S /C`: the command line of `program` and
/// `args` inside one outer pair of quotes, which `/S` takes off again.
pub fn windows_command_tail(program: &str, args: &Vec<String>) -> (tail: String)
    ensures
        tail@ == seq!['"'] + windows_line(seq![program@] + args.deep_view()) + seq!['"'],
{
    let ghost tokens = seq![program@] + args.deep_view();
    let mut line = String::new();
    append_windows_arg(&mut line, program);
    let mut i: usize = 0;
    assert(tokens.take(1)[0] == program@);
    while i < args.len()
        invariant
            i <= args.len(),
            tokens == seq![program@] + args.deep_view(),
            line@ == windows_line(tokens.take(i + 1)),
        decreases args.len() - i,
    {
        line.push(' ');
        append_windows_arg(&mut line, args[i].as_str());
        i += 1;
        assert(tokens.take(i + 1).drop_last() =~= tokens.take(i as int));
        assert(tokens.take(i + 1).last() == args@[i - 1]@);
    }
    assert(tokens.take(tokens.len() as int) =~= tokens);
    let mut tail = String::new();
    tail.push('"');
    tail.append(line.as_str());
    tail.push('"');
    assert(tail@ =~= seq!['"'] + windows_line(tokens) + seq!['"']);
    tail
}

} // verus!
