//! What a Windows child receives: the command lines of [`crate::windows`], read
//! by `cmd` and then split by the C runtime.

use vstd::prelude::*;

use crate::windows::{
    backslashes, careted_body, cmd_read, cmd_start, cmd_step, has_metachar, has_quoting_char,
    is_metachar, is_quoting_char, msvc_arg, quoted_body, windows_arg, windows_line,
    with_windows_arg, CmdReader,
};

verus! {

/// How far the C runtime has read: the arguments that are complete, the text of
/// the one being read (if one has begun), whether it stands inside quotes, and how
/// many backslashes were just read.
#[verifier::ext_equal]
pub struct CrtReader {
    pub args: Seq<Seq<char>>,
    pub current: Option<Seq<char>>,
    pub quoted: bool,
    pub slashes: nat,
}

pub open spec fn crt_start() -> CrtReader {
    CrtReader { args: Seq::empty(), current: None, quoted: false, slashes: 0 }
}

impl CrtReader {
    pub open spec fn begun(self) -> Seq<char> {
        match self.current {
            Some(text) => text,
            None => Seq::empty(),
        }
    }

    /// The argument being read, were it to end here.
    pub open spec fn pending(self) -> Seq<char> {
        self.begun() + backslashes(self.slashes)
    }
}

/// The C runtime reads one character. Backslashes are literal unless a quote
/// follows them: then each pair is one backslash, and an odd one makes the quote
/// literal. A quote that is not literal opens or closes a quoted stretch. A space
/// or a tab outside quotes ends an argument.
pub open spec fn crt_step(r: CrtReader, c: char) -> CrtReader {
    if c == '\\' {
        CrtReader { current: Some(r.begun()), slashes: r.slashes + 1, ..r }
    } else if c == '"' {
        let text = r.begun() + backslashes(r.slashes / 2);
        if r.slashes % 2 == 1 {
            CrtReader { current: Some(text.push('"')), slashes: 0, ..r }
        } else {
            CrtReader { current: Some(text), quoted: !r.quoted, slashes: 0, ..r }
        }
    } else if (c == ' ' || c == '\t') && !r.quoted {
        if r.current is Some {
            CrtReader { args: r.args.push(r.pending()), current: None, slashes: 0, ..r }
        } else {
            r
        }
    } else {
        CrtReader { current: Some(r.pending().push(c)), slashes: 0, ..r }
    }
}

pub open spec fn crt_read(r: CrtReader, s: Seq<char>) -> CrtReader
    decreases s.len(),
{
    if s.len() == 0 {
        r
    } else {
        crt_read(crt_step(r, s[0]), s.drop_first())
    }
}

/// The arguments into which the C runtime splits a command line.
pub open spec fn crt_args(s: Seq<char>) -> Seq<Seq<char>> {
    let r = crt_read(crt_start(), s);
    if r.current is Some {
        r.args.push(r.pending())
    } else {
        r.args
    }
}

proof fn lemma_cmd_read_concat(r: CmdReader, a: Seq<char>, b: Seq<char>)
    ensures
        cmd_read(r, a + b) == cmd_read(cmd_read(r, a), b),
    decreases a.len(),
{
    if a.len() == 0 {
        assert(a + b =~= b);
    } else {
        assert((a + b).drop_first() =~= a.drop_first() + b);
        lemma_cmd_read_concat(cmd_step(r, a[0]), a.drop_first(), b);
    }
}

proof fn lemma_crt_read_concat(r: CrtReader, a: Seq<char>, b: Seq<char>)
    ensures
        crt_read(r, a + b) == crt_read(crt_read(r, a), b),
    decreases a.len(),
{
    if a.len() == 0 {
        assert(a + b =~= b);
    } else {
        assert((a + b).drop_first() =~= a.drop_first() + b);
        lemma_crt_read_concat(crt_step(r, a[0]), a.drop_first(), b);
    }
}

/// Text without metacharacters passes `cmd` as it is.
proof fn lemma_cmd_read_plain(r: CmdReader, s: Seq<char>)
    requires
        !r.caret,
        !has_metachar(s),
    ensures
        ({
            let after = cmd_read(r, s);
            &&& after.passed == r.passed + s
            &&& !after.caret
            &&& after.exposed == r.exposed
        }),
    decreases s.len(),
{
    if s.len() == 0 {
        assert(r.passed + s =~= r.passed);
    } else {
        assert(!is_metachar(s[0]));
        assert forall|i: int| 0 <= i < s.drop_first().len() implies !is_metachar(
            #[trigger] s.drop_first()[i],
        ) by {
            assert(s.drop_first()[i] == s[i + 1]);
        }
        lemma_cmd_read_plain(cmd_step(r, s[0]), s.drop_first());
        assert(r.passed.push(s[0]) + s.drop_first() =~= r.passed + s);
    }
}

proof fn lemma_cmd_read_backslashes(r: CmdReader, n: nat)
    requires
        !r.caret,
    ensures
        cmd_read(r, backslashes(n)) == (CmdReader { passed: r.passed + backslashes(n), ..r }),
    decreases n,
{
    if n == 0 {
        assert(r.passed + backslashes(0) =~= r.passed);
    } else {
        assert(backslashes(n).drop_first() =~= backslashes((n - 1) as nat));
        lemma_cmd_read_backslashes(cmd_step(r, '\\'), (n - 1) as nat);
        assert(r.passed.push('\\') + backslashes((n - 1) as nat) =~= r.passed + backslashes(n));
    }
}

proof fn lemma_cmd_read_two(r: CmdReader, a: char, b: char)
    ensures
        cmd_read(r, seq![a, b]) == cmd_step(cmd_step(r, a), b),
{
    reveal_with_fuel(cmd_read, 3);
    assert(seq![a, b].drop_first() =~= seq![b]);
    assert(seq![b].drop_first() =~= Seq::<char>::empty());
}

proof fn lemma_cmd_read_one(r: CmdReader, a: char)
    ensures
        cmd_read(r, seq![a]) == cmd_step(r, a),
{
    reveal_with_fuel(cmd_read, 2);
    assert(seq![a].drop_first() =~= Seq::<char>::empty());
}

/// `cmd` turns the careted body into the quoted body and exposes nothing of it.
proof fn lemma_cmd_read_careted_body(r: CmdReader, s: Seq<char>, n: nat)
    requires
        !r.caret,
        !r.quoted,
    ensures
        cmd_read(r, careted_body(s, n)) == (CmdReader { passed: r.passed + quoted_body(s, n), ..r }),
    decreases s.len(),
{
    if s.len() == 0 {
        lemma_cmd_read_backslashes(r, 2 * n);
    } else if s[0] == '\\' {
        lemma_cmd_read_careted_body(r, s.drop_first(), n + 1);
    } else {
        let rest = s.drop_first();
        let run = if s[0] == '"' { 2 * n + 1 } else { n };
        let head = if s[0] == '"' || is_metachar(s[0]) { seq!['^', s[0]] } else { seq![s[0]] };
        assert(careted_body(s, n) =~= backslashes(run) + (head + careted_body(rest, 0)));
        assert(quoted_body(s, n) =~= backslashes(run) + (seq![s[0]] + quoted_body(rest, 0)));
        lemma_cmd_read_concat(r, backslashes(run), head + careted_body(rest, 0));
        lemma_cmd_read_backslashes(r, run);
        let r1 = CmdReader { passed: r.passed + backslashes(run), ..r };
        lemma_cmd_read_concat(r1, head, careted_body(rest, 0));
        if s[0] == '"' || is_metachar(s[0]) {
            lemma_cmd_read_two(r1, '^', s[0]);
        } else {
            lemma_cmd_read_one(r1, s[0]);
        }
        let r2 = CmdReader { passed: r1.passed.push(s[0]), ..r1 };
        assert(cmd_read(r1, head) == r2);
        lemma_cmd_read_careted_body(r2, rest, 0);
        assert(r2.passed + quoted_body(rest, 0) =~= r.passed + quoted_body(s, n));
    }
}

proof fn lemma_quoted_body_plain(s: Seq<char>, n: nat)
    requires
        !has_metachar(s),
    ensures
        !has_metachar(quoted_body(s, n)),
    decreases s.len(),
{
    if s.len() > 0 {
        let rest = s.drop_first();
        assert(!is_metachar(s[0]));
        assert forall|i: int| 0 <= i < rest.len() implies !is_metachar(#[trigger] rest[i]) by {
            assert(rest[i] == s[i + 1]);
        }
        if s[0] == '\\' {
            lemma_quoted_body_plain(rest, n + 1);
        } else {
            lemma_quoted_body_plain(rest, 0);
            let run = if s[0] == '"' { 2 * n + 1 } else { n };
            let tail = quoted_body(rest, 0);
            let all = backslashes(run) + seq![s[0]] + tail;
            assert forall|i: int| 0 <= i < all.len() implies !is_metachar(#[trigger] all[i]) by {
                if i > run {
                    assert(all[i] == tail[i - run - 1]);
                }
            }
        }
    }
}

/// What `cmd` passes on for one token: the token quoted for the C runtime.
pub open spec fn crt_form(token: Seq<char>) -> Seq<char> {
    if token.len() == 0 {
        seq!['"', '"']
    } else if has_metachar(token) || has_quoting_char(token) {
        seq!['"'] + quoted_body(token, 0) + seq!['"']
    } else {
        token
    }
}

/// `cmd` reads one token, wherever it stands: it passes on the token's form for the C
/// runtime and exposes nothing.
proof fn lemma_cmd_read_arg(r: CmdReader, token: Seq<char>)
    requires
        !r.caret,
    ensures
        ({
            let after = cmd_read(r, windows_arg(r.quoted, token));
            &&& after.passed == r.passed + crt_form(token)
            &&& !after.caret
            &&& after.exposed == r.exposed
        }),
{
    if token.len() == 0 {
        lemma_cmd_read_plain(r, seq!['"', '"']);
    } else if has_metachar(token) {
        let body = careted_body(token, 0);
        let opening = if r.quoted {
            seq!['"']
        } else {
            seq!['^', '"']
        };
        assert(windows_arg(r.quoted, token) =~= opening + (body + seq!['^', '"']));
        lemma_cmd_read_concat(r, opening, body + seq!['^', '"']);
        if r.quoted {
            lemma_cmd_read_one(r, '"');
        } else {
            lemma_cmd_read_two(r, '^', '"');
        }
        let r1 = CmdReader { passed: r.passed.push('"'), quoted: false, ..r };
        lemma_cmd_read_concat(r1, body, seq!['^', '"']);
        lemma_cmd_read_careted_body(r1, token, 0);
        let r2 = CmdReader { passed: r1.passed + quoted_body(token, 0), ..r1 };
        lemma_cmd_read_two(r2, '^', '"');
        assert(r2.passed.push('"') =~= r.passed + crt_form(token));
    } else if has_quoting_char(token) {
        let body = quoted_body(token, 0);
        lemma_quoted_body_plain(token, 0);
        let all = seq!['"'] + body + seq!['"'];
        assert forall|i: int| 0 <= i < all.len() implies !is_metachar(#[trigger] all[i]) by {
            if 0 < i < all.len() - 1 {
                assert(all[i] == body[i - 1]);
            }
        }
        lemma_cmd_read_plain(r, all);
    } else {
        lemma_cmd_read_plain(r, token);
    }
}

/// The line that the C runtime reads for `tokens`.
pub open spec fn crt_line(tokens: Seq<Seq<char>>) -> Seq<char>
    decreases tokens.len(),
{
    if tokens.len() == 0 {
        Seq::empty()
    } else if tokens.len() == 1 {
        crt_form(tokens[0])
    } else {
        crt_line(tokens.drop_last()) + seq![' '] + crt_form(tokens.last())
    }
}

proof fn lemma_cmd_read_line(tokens: Seq<Seq<char>>)
    ensures
        ({
            let r = cmd_read(cmd_start(), windows_line(tokens));
            &&& r.passed == crt_line(tokens)
            &&& !r.caret
            &&& !r.exposed
        }),
    decreases tokens.len(),
{
    if tokens.len() == 1 {
        let arg = windows_arg(false, tokens[0]);
        lemma_cmd_read_arg(cmd_start(), tokens[0]);
        assert(windows_line(tokens) =~= arg);
        assert(Seq::<char>::empty() + crt_form(tokens[0]) =~= crt_form(tokens[0]));
    } else if tokens.len() > 1 {
        let before = windows_line(tokens.drop_last());
        let last = tokens.last();
        lemma_cmd_read_line(tokens.drop_last());
        let r = cmd_read(cmd_start(), before);
        lemma_cmd_read_concat(cmd_start(), before, seq![' ']);
        lemma_cmd_read_one(r, ' ');
        assert(before.push(' ') =~= before + seq![' ']);
        let r1 = cmd_step(r, ' ');
        lemma_cmd_read_concat(cmd_start(), before.push(' '), windows_arg(r1.quoted, last));
        lemma_cmd_read_arg(r1, last);
        assert(r1.passed + crt_form(last) =~= crt_line(tokens));
    }
}

proof fn lemma_crt_read_one(r: CrtReader, a: char)
    ensures
        crt_read(r, seq![a]) == crt_step(r, a),
{
    reveal_with_fuel(crt_read, 2);
    assert(seq![a].drop_first() =~= Seq::<char>::empty());
}

proof fn lemma_crt_read_backslashes(r: CrtReader, n: nat)
    requires
        r.current is Some,
    ensures
        crt_read(r, backslashes(n)) == (CrtReader { slashes: r.slashes + n, ..r }),
    decreases n,
{
    if n > 0 {
        assert(backslashes(n).drop_first() =~= backslashes((n - 1) as nat));
        lemma_crt_read_backslashes(crt_step(r, '\\'), (n - 1) as nat);
    }
}

/// Inside quotes, the quoted body of `s` and a closing quote read back as `s`.
proof fn lemma_crt_read_quoted_body(r: CrtReader, s: Seq<char>, n: nat)
    requires
        r.current is Some,
        r.quoted,
        r.slashes == 0,
    ensures
        crt_read(r, quoted_body(s, n) + seq!['"']) == (CrtReader {
            current: Some(r.begun() + backslashes(n) + s),
            quoted: false,
            ..r
        }),
    decreases s.len(),
{
    if s.len() == 0 {
        lemma_crt_read_concat(r, backslashes(2 * n), seq!['"']);
        lemma_crt_read_backslashes(r, 2 * n);
        let r1 = CrtReader { slashes: 2 * n, ..r };
        lemma_crt_read_one(r1, '"');
        assert(r.begun() + backslashes(n) + s =~= r.begun() + backslashes(n));
    } else if s[0] == '\\' {
        lemma_crt_read_quoted_body(r, s.drop_first(), n + 1);
        assert(r.begun() + backslashes(n + 1) + s.drop_first() =~= r.begun() + backslashes(n) + s);
    } else {
        let rest = s.drop_first();
        let run = if s[0] == '"' { 2 * n + 1 } else { n };
        let tail = quoted_body(rest, 0) + seq!['"'];
        assert(quoted_body(s, n) + seq!['"'] =~= backslashes(run) + (seq![s[0]] + tail));
        lemma_crt_read_concat(r, backslashes(run), seq![s[0]] + tail);
        lemma_crt_read_backslashes(r, run);
        let r1 = CrtReader { slashes: run, ..r };
        lemma_crt_read_concat(r1, seq![s[0]], tail);
        lemma_crt_read_one(r1, s[0]);
        let r2 = CrtReader { current: Some((r.begun() + backslashes(n)).push(s[0])), ..r };
        assert(crt_step(r1, s[0]) == r2) by {
            if s[0] == '"' {
                assert(run / 2 == n && run % 2 == 1);
            }
        }
        lemma_crt_read_quoted_body(r2, rest, 0);
        assert(r2.begun() + backslashes(0) + rest =~= r.begun() + backslashes(n) + s);
    }
}

/// Outside quotes, text without spaces, tabs and quotes joins the argument.
proof fn lemma_crt_read_bare(r: CrtReader, s: Seq<char>)
    requires
        !r.quoted,
        !has_quoting_char(s),
        r.current is None ==> r.slashes == 0,
    ensures
        ({
            let after = crt_read(r, s);
            &&& after.args == r.args
            &&& !after.quoted
            &&& after.pending() == r.pending() + s
            &&& (r.current is Some || s.len() > 0) ==> after.current is Some
        }),
    decreases s.len(),
{
    if s.len() == 0 {
        assert(r.pending() + s =~= r.pending());
    } else {
        assert(!is_quoting_char(s[0]));
        let rest = s.drop_first();
        assert forall|i: int| 0 <= i < rest.len() implies !is_quoting_char(#[trigger] rest[i]) by {
            assert(rest[i] == s[i + 1]);
        }
        let r1 = crt_step(r, s[0]);
        assert(r1.pending() =~= r.pending().push(s[0]));
        lemma_crt_read_bare(r1, rest);
        assert(r1.pending() + rest =~= r.pending() + s);
    }
}

/// Between arguments, the form of `token` is read as `token`.
proof fn lemma_crt_read_form(r: CrtReader, token: Seq<char>)
    requires
        r.current is None,
        r.slashes == 0,
        !r.quoted,
    ensures
        ({
            let after = crt_read(r, crt_form(token));
            &&& after.args == r.args
            &&& !after.quoted
            &&& after.current is Some
            &&& after.pending() == token
        }),
{
    if token.len() == 0 || has_metachar(token) || has_quoting_char(token) {
        let body = quoted_body(token, 0);
        assert(crt_form(token) =~= seq!['"'] + (body + seq!['"']));
        lemma_crt_read_concat(r, seq!['"'], body + seq!['"']);
        lemma_crt_read_one(r, '"');
        let r1 = crt_step(r, '"');
        assert(r1.begun() =~= Seq::<char>::empty());
        lemma_crt_read_quoted_body(r1, token, 0);
        assert(r1.begun() + backslashes(0) + token =~= token);
        assert(crt_read(r, crt_form(token)).pending() =~= token);
    } else {
        lemma_crt_read_bare(r, token);
        assert(r.pending() + token =~= token);
    }
}

proof fn lemma_crt_read_line(tokens: Seq<Seq<char>>)
    requires
        tokens.len() > 0,
    ensures
        ({
            let r = crt_read(crt_start(), crt_line(tokens));
            &&& r.args == tokens.drop_last()
            &&& !r.quoted
            &&& r.current is Some
            &&& r.pending() == tokens.last()
        }),
    decreases tokens.len(),
{
    let before = tokens.drop_last();
    let last = tokens.last();
    if tokens.len() == 1 {
        lemma_crt_read_form(crt_start(), last);
        assert(before =~= Seq::<Seq<char>>::empty());
    } else {
        lemma_crt_read_line(before);
        let r = crt_read(crt_start(), crt_line(before));
        let form = crt_form(last);
        assert(crt_line(tokens) =~= crt_line(before) + (seq![' '] + form));
        lemma_crt_read_concat(crt_start(), crt_line(before), seq![' '] + form);
        lemma_crt_read_concat(r, seq![' '], form);
        lemma_crt_read_one(r, ' ');
        let r1 = crt_step(r, ' ');
        assert(before.drop_last().push(before.last()) =~= before);
        lemma_crt_read_form(r1, last);
    }
}

/// The C runtime's quoting convention loses nothing: an argument written by
/// [`msvc_arg`] is read back by the child as that one argument.
pub proof fn law_msvc_argument_round_trip(token: Seq<char>)
    requires
        token.len() > 0,
    ensures
        crt_args(msvc_arg(token)) == seq![token],
{
    if has_quoting_char(token) {
        lemma_crt_read_form(crt_start(), token);
    } else {
        lemma_crt_read_bare(crt_start(), token);
        assert(crt_start().pending() + token =~= token);
    }
    assert(crt_args(msvc_arg(token)) =~= seq![token]);
}

/// One token by itself survives `cmd` and the C runtime, whatever it holds.
pub proof fn law_argument_round_trip(token: Seq<char>)
    ensures
        !cmd_read(cmd_start(), windows_arg(false, token)).exposed,
        crt_args(cmd_read(cmd_start(), windows_arg(false, token)).passed) == seq![token],
{
    let tokens = seq![token];
    law_command_line_round_trip(tokens);
    assert(windows_line(tokens) =~= windows_arg(false, token));
}

/// Every program and argument list reaches the child intact, whatever its tokens hold and
/// whatever stands before each: `cmd` meets no metacharacter without a caret before it,
/// and the C runtime splits what `cmd` passes on into exactly those tokens.
pub proof fn law_command_line_round_trip(tokens: Seq<Seq<char>>)
    ensures
        !cmd_read(cmd_start(), windows_line(tokens)).exposed,
        crt_args(cmd_read(cmd_start(), windows_line(tokens)).passed) == tokens,
{
    lemma_cmd_read_line(tokens);
    if tokens.len() > 0 {
        lemma_crt_read_line(tokens);
        assert(tokens.drop_last().push(tokens.last()) =~= tokens);
    } else {
        assert(crt_args(crt_line(tokens)) =~= tokens);
    }
}

/// The characters that `cmd` gives a meaning to, and those that only quotes hold together,
/// one by one.
pub proof fn law_special_characters(c: char, s: Seq<char>)
    ensures
        is_metachar(c) <==> (c == '&' || c == '|' || c == '<' || c == '>' || c == '^' || c == '%'
            || c == '(' || c == ')' || c == '!'),
        is_quoting_char(c) <==> (c == ' ' || c == '\t' || c == '"'),
        has_metachar(s) <==> exists|i: int| 0 <= i < s.len() && is_metachar(#[trigger] s[i]),
        has_quoting_char(s) <==> exists|i: int|
            0 <= i < s.len() && is_quoting_char(#[trigger] s[i]),
{
}

/// How `cmd` reads: it drops a caret outside quotes and takes the next character as it is;
/// a quote begins or ends a quoted stretch; every other character is passed on, and one that
/// has a meaning is exposed.
pub proof fn law_cmd_reads(r: CmdReader, c: char)
    requires
        !r.caret,
    ensures
        cmd_start() == (CmdReader {
            passed: Seq::empty(),
            quoted: false,
            caret: false,
            exposed: false,
        }),
        !r.quoted ==> cmd_read(r, seq!['^', c]) == (CmdReader { passed: r.passed.push(c), ..r }),
        cmd_read(r, seq!['"']) == (CmdReader {
            passed: r.passed.push('"'),
            quoted: !r.quoted,
            ..r
        }),
        c != '"' && !(c == '^' && !r.quoted) ==> cmd_read(r, seq![c]) == (CmdReader {
            passed: r.passed.push(c),
            exposed: r.exposed || is_metachar(c),
            ..r
        }),
{
    lemma_cmd_read_two(r, '^', c);
    lemma_cmd_read_one(r, '"');
    lemma_cmd_read_one(r, c);
}

/// How the C runtime reads: a run of backslashes stands for itself unless a quote follows;
/// before a quote each two are one, and an odd one makes the quote a character. A quote that
/// is none begins or ends a quoted stretch. Outside quotes a space or a tab ends an
/// argument, and every other character belongs to one.
pub proof fn law_crt_reads(r: CrtReader, c: char)
    requires
        r.current is Some,
        r.slashes == 0,
    ensures
        crt_start() == (CrtReader {
            args: Seq::empty(),
            current: None,
            quoted: false,
            slashes: 0,
        }),
        crt_step(r, '"') == (CrtReader { quoted: !r.quoted, ..r }),
        crt_step(crt_step(r, '\\'), '"') == (CrtReader {
            current: Some(r.current->0.push('"')),
            ..r
        }),
        crt_step(crt_step(crt_step(r, '\\'), '\\'), '"') == (CrtReader {
            current: Some(r.current->0.push('\\')),
            quoted: !r.quoted,
            ..r
        }),
        c != '\\' && c != '"' && (r.quoted || (c != ' ' && c != '\t')) ==> {
            &&& crt_step(r, c) == (CrtReader { current: Some(r.current->0.push(c)), ..r })
            &&& crt_step(crt_step(r, '\\'), c) == (CrtReader {
                current: Some(r.current->0.push('\\').push(c)),
                ..r
            })
        },
        !r.quoted && (c == ' ' || c == '\t') ==> crt_step(r, c) == (CrtReader {
            args: r.args.push(r.current->0),
            current: None,
            ..r
        }),
{
    let text = r.current->0;
    assert(text + backslashes(0) =~= text);
    assert(text + backslashes(1) =~= text.push('\\'));
}

/// An argument without spaces, tabs, quotes and metacharacters stands for itself; the empty
/// one is a pair of quotes; any other stands in quotes of its own, which carets protect from
/// `cmd` where the argument holds a metacharacter and `cmd` would heed them.
pub proof fn law_form_of_an_argument(token: Seq<char>, quoted: bool)
    ensures
        windows_arg(quoted, Seq::empty()) == seq!['"', '"'],
        !has_quoting_char(token) ==> msvc_arg(token) == token,
        has_quoting_char(token) ==> msvc_arg(token) == seq!['"'] + quoted_body(token, 0)
            + seq!['"'],
        token.len() > 0 && !has_metachar(token) ==> windows_arg(quoted, token) == msvc_arg(token),
        has_metachar(token) ==> windows_arg(false, token) == seq!['^', '"'] + careted_body(token, 0)
            + seq!['^', '"'],
        has_metachar(token) ==> windows_arg(true, token) == seq!['"'] + careted_body(token, 0)
            + seq!['^', '"'],
{
}

proof fn lemma_quoted_body_of_backslashes(n: nat, pending: nat, rest: Seq<char>)
    ensures
        quoted_body(backslashes(n) + rest, pending) == quoted_body(rest, pending + n),
    decreases n,
{
    if n == 0 {
        assert(backslashes(n) + rest =~= rest);
    } else {
        assert((backslashes(n) + rest).drop_first() =~= backslashes((n - 1) as nat) + rest);
        lemma_quoted_body_of_backslashes((n - 1) as nat, pending + 1, rest);
    }
}

/// What stands between the quotes: backslashes before a quote are doubled and one more makes
/// the quote a character, backslashes at the end are doubled, and everything else, other
/// backslashes included, stands for itself.
pub proof fn law_backslashes_doubled_before_quotes(n: nat, c: char, rest: Seq<char>)
    ensures
        backslashes(n).len() == n,
        forall|i: int| 0 <= i < n ==> #[trigger] backslashes(n)[i] == '\\',
        quoted_body(backslashes(n), 0) == backslashes(2 * n),
        quoted_body(backslashes(n) + (seq!['"'] + rest), 0) == backslashes(2 * n + 1) + (seq!['"']
            + quoted_body(rest, 0)),
        c != '\\' && c != '"' ==> quoted_body(backslashes(n) + (seq![c] + rest), 0) == backslashes(n)
            + (seq![c] + quoted_body(rest, 0)),
{
    let empty = Seq::<char>::empty();
    assert(backslashes(n) + empty =~= backslashes(n));
    lemma_quoted_body_of_backslashes(n, 0, empty);
    lemma_quoted_body_of_backslashes(n, 0, seq!['"'] + rest);
    lemma_quoted_body_of_backslashes(n, 0, seq![c] + rest);
    assert((seq!['"'] + rest).drop_first() =~= rest);
    assert((seq![c] + rest).drop_first() =~= rest);
    assert(backslashes(2 * n + 1) + seq!['"'] + quoted_body(rest, 0) =~= backslashes(2 * n + 1) + (
    seq!['"'] + quoted_body(rest, 0)));
    assert(backslashes(n) + seq![c] + quoted_body(rest, 0) =~= backslashes(n) + (seq![c]
        + quoted_body(rest, 0)));
}

/// `c` with a caret before it where `cmd` would heed it.
pub open spec fn careted(c: char) -> Seq<char> {
    if c == '"' || is_metachar(c) {
        seq!['^', c]
    } else {
        seq![c]
    }
}

/// `s` with a caret before each quote and each metacharacter.
pub open spec fn careted_text(s: Seq<char>) -> Seq<char>
    decreases s.len(),
{
    if s.len() == 0 {
        Seq::empty()
    } else {
        careted(s[0]) + careted_text(s.drop_first())
    }
}

proof fn lemma_careted_concat(a: Seq<char>, b: Seq<char>)
    ensures
        careted_text(a + b) == careted_text(a) + careted_text(b),
    decreases a.len(),
{
    if a.len() == 0 {
        assert(a + b =~= b);
        assert(careted_text(a) + careted_text(b) =~= careted_text(b));
    } else {
        assert((a + b).drop_first() =~= a.drop_first() + b);
        lemma_careted_concat(a.drop_first(), b);
        assert(careted_text(a + b) =~= careted_text(a) + careted_text(b));
    }
}

proof fn lemma_careted_backslashes(n: nat)
    ensures
        careted_text(backslashes(n)) == backslashes(n),
    decreases n,
{
    if n > 0 {
        assert(backslashes(n).drop_first() =~= backslashes((n - 1) as nat));
        lemma_careted_backslashes((n - 1) as nat);
    }
    assert(careted_text(backslashes(n)) =~= backslashes(n));
}

/// The protected form is the quoted form with a caret before each quote and each
/// metacharacter in it, and no other caret.
pub proof fn law_carets_before_what_cmd_heeds(s: Seq<char>, n: nat)
    ensures
        careted_body(s, n) == careted_text(quoted_body(s, n)),
    decreases s.len(),
{
    if s.len() == 0 {
        lemma_careted_backslashes(2 * n);
    } else if s[0] == '\\' {
        law_carets_before_what_cmd_heeds(s.drop_first(), n + 1);
    } else {
        let rest = s.drop_first();
        let run = if s[0] == '"' {
            2 * n + 1
        } else {
            n
        };
        law_carets_before_what_cmd_heeds(rest, 0);
        lemma_careted_backslashes(run);
        lemma_careted_concat(backslashes(run) + seq![s[0]], quoted_body(rest, 0));
        lemma_careted_concat(backslashes(run), seq![s[0]]);
        reveal_with_fuel(careted_text, 2);
        assert(seq![s[0]].drop_first() =~= Seq::<char>::empty());
        assert(careted_text(seq![s[0]]) =~= careted(s[0]));
        assert(careted_body(s, n) =~= careted_text(quoted_body(s, n)));
    }
}

/// A command line is its first token and then, behind a space each, the others, in order.
/// Each is written for the place where it stands.
pub proof fn law_command_line_in_order(
    tokens: Seq<Seq<char>>,
    line: Seq<char>,
    token: Seq<char>,
)
    ensures
        windows_line(seq![token]) == windows_arg(false, token),
        tokens.len() > 0 ==> windows_line(tokens.push(token)) == windows_line(tokens) + seq![' ']
            + windows_arg(
            cmd_read(cmd_start(), windows_line(tokens) + seq![' ']).quoted,
            token,
        ),
        with_windows_arg(line, token) == line + windows_arg(
            cmd_read(cmd_start(), line).quoted,
            token,
        ),
{
    assert(windows_line(seq![token]) =~= windows_arg(false, token));
    assert(tokens.push(token).drop_last() =~= tokens);
    assert(windows_line(tokens).push(' ') =~= windows_line(tokens) + seq![' ']);
}

} // verus!
