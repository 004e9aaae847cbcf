//! The bounded buffers that hold what a child process writes.

use std::collections::VecDeque;

use vstd::prelude::*;
use vstd::utf8::encode_utf8;

use crate::bytes::text_of;
use crate::outside::from_utf8_lossy;

verus! {

broadcast use vstd::string::group_string_axioms;

/// The most bytes that are kept of a child's standard output: its last ones.
pub const MAX_STDOUT_BYTES: usize = 8 * 1024 * 1024;

/// What stands before kept output whose beginning was dropped.
pub const STDOUT_TRUNCATION_MARKER: &'static str = "[truncated at 8 MiB: output prefix dropped; retained tail begins below]\n";

/// The most bytes that are kept of a child's standard error: its first ones.
pub const MAX_STDERR_BYTES: usize = 1024 * 1024;

/// What stands behind kept standard error whose end was dropped.
pub const STDERR_TRUNCATION_MARKER: &'static str = "\n[truncated at 1 MiB]";

/// The last `n` bytes of `s`, or all of it.
pub open spec fn last_bytes(s: Seq<u8>, n: nat) -> Seq<u8> {
    if s.len() <= n {
        s
    } else {
        s.skip(s.len() - n)
    }
}

/// The first `n` bytes of `s`, or all of it.
pub open spec fn first_bytes(s: Seq<u8>, n: nat) -> Seq<u8> {
    if s.len() <= n {
        s
    } else {
        s.take(n as int)
    }
}

/// What is handed on of the standard output `written`: all of it, or the marker and
/// its last bytes.
pub open spec fn stdout_kept(written: Seq<u8>) -> Seq<u8> {
    if written.len() <= MAX_STDOUT_BYTES {
        written
    } else {
        encode_utf8(STDOUT_TRUNCATION_MARKER@) + last_bytes(written, MAX_STDOUT_BYTES as nat)
    }
}

/// What is handed on of the standard error `written`: its text, or the text of its
/// first bytes and the marker.
pub open spec fn stderr_kept(written: Seq<u8>) -> Seq<char> {
    if written.len() <= MAX_STDERR_BYTES {
        text_of(written)
    } else {
        text_of(first_bytes(written, MAX_STDERR_BYTES as nat)) + STDERR_TRUNCATION_MARKER@
    }
}

/// A child's standard output as it is read: a buffer of bounded size that keeps the
/// last bytes.
pub struct StdoutTail {
    kept: VecDeque<u8>,
    truncated: bool,
    written: Ghost<Seq<u8>>,
}

impl View for StdoutTail {
    /// Everything that was read.
    type V = Seq<u8>;

    closed spec fn view(&self) -> Seq<u8> {
        self.written@
    }
}

impl StdoutTail {
    /// The buffer holds the last bytes of what was read, and knows whether it has
    /// dropped any.
    pub closed spec fn well_formed(&self) -> bool {
        &&& self.kept@ == last_bytes(self.written@, MAX_STDOUT_BYTES as nat)
        &&& self.truncated == (self.written@.len() > MAX_STDOUT_BYTES)
    }

    pub fn new() -> (buffer: StdoutTail)
        ensures
            buffer.well_formed(),
            buffer@ == Seq::<u8>::empty(),
    {
        StdoutTail { kept: VecDeque::new(), truncated: false, written: Ghost(Seq::empty()) }
    }

    /// Takes in the next bytes.
    pub fn push(&mut self, chunk: &[u8])
        requires
            old(self).well_formed(),
        ensures
            final(self).well_formed(),
            final(self)@ == old(self)@ + chunk@,
    {
        let ghost before = self.written@;
        let mut i: usize = 0;
        assert(chunk@.take(0) =~= Seq::<u8>::empty());
        assert(before + chunk@.take(0) =~= before);
        while i < chunk.len()
            invariant
                i <= chunk.len(),
                self.written@ == before + chunk@.take(i as int),
                self.well_formed(),
            decreases chunk.len() - i,
        {
            if self.kept.len() == MAX_STDOUT_BYTES {
                let _ = self.kept.pop_front();
                self.truncated = true;
            }
            self.kept.push_back(chunk[i]);
            self.written = Ghost(self.written@.push(chunk[i as int]));
            i += 1;
            assert(before + chunk@.take(i as int) =~= self.written@);
            assert(self.kept@ =~= last_bytes(self.written@, MAX_STDOUT_BYTES as nat));
        }
        assert(chunk@.take(i as int) =~= chunk@);
    }

    /// The bytes that are handed on once everything was read.
    pub fn finish(&self) -> (bytes: Vec<u8>)
        requires
            self.well_formed(),
        ensures
            bytes@ == stdout_kept(self@),
    {
        let mut bytes: Vec<u8> = Vec::new();
        if self.truncated {
            bytes = STDOUT_TRUNCATION_MARKER.as_bytes_vec();
        }
        let ghost marker = bytes@;
        let mut i: usize = 0;
        assert(marker + self.kept@.take(0) =~= marker);
        while i < self.kept.len()
            invariant
                i <= self.kept.len(),
                bytes@ == marker + self.kept@.take(i as int),
            decreases self.kept.len() - i,
        {
            bytes.push(self.kept[i]);
            i += 1;
            assert(bytes@ =~= marker + self.kept@.take(i as int));
        }
        assert(self.kept@.take(i as int) =~= self.kept@);
        assert(bytes@ =~= stdout_kept(self@));
        bytes
    }
}

/// A child's standard error as it is read: a buffer of bounded size that keeps the
/// first bytes.
pub struct StderrHead {
    kept: Vec<u8>,
    truncated: bool,
    written: Ghost<Seq<u8>>,
}

impl View for StderrHead {
    /// Everything that was read.
    type V = Seq<u8>;

    closed spec fn view(&self) -> Seq<u8> {
        self.written@
    }
}

impl StderrHead {
    /// The buffer holds the first bytes of what was read, and knows whether it has
    /// dropped any.
    pub closed spec fn well_formed(&self) -> bool {
        &&& self.kept@ == first_bytes(self.written@, MAX_STDERR_BYTES as nat)
        &&& self.truncated == (self.written@.len() > MAX_STDERR_BYTES)
    }

    pub fn new() -> (buffer: StderrHead)
        ensures
            buffer.well_formed(),
            buffer@ == Seq::<u8>::empty(),
    {
        StderrHead { kept: Vec::new(), truncated: false, written: Ghost(Seq::empty()) }
    }

    /// Takes in the next bytes.
    pub fn push(&mut self, chunk: &[u8])
        requires
            old(self).well_formed(),
        ensures
            final(self).well_formed(),
            final(self)@ == old(self)@ + chunk@,
    {
        let ghost before = self.written@;
        let remaining: usize = MAX_STDERR_BYTES - self.kept.len();
        let taken: usize = if remaining >= chunk.len() {
            chunk.len()
        } else {
            remaining
        };
        let ghost held = self.kept@;
        let mut i: usize = 0;
        assert(held + chunk@.take(0) =~= held);
        while i < taken
            invariant
                i <= taken <= chunk.len(),
                self.kept@ == held + chunk@.take(i as int),
                self.truncated == (before.len() > MAX_STDERR_BYTES),
            decreases taken - i,
        {
            self.kept.push(chunk[i]);
            i += 1;
            assert(self.kept@ =~= held + chunk@.take(i as int));
        }
        if taken < chunk.len() {
            self.truncated = true;
        }
        self.written = Ghost(before + chunk@);
        assert(self.kept@ =~= first_bytes(self.written@, MAX_STDERR_BYTES as nat));
    }

    /// The text that is handed on once everything was read.
    pub fn finish(&self) -> (text: String)
        requires
            self.well_formed(),
        ensures
            text@ == stderr_kept(self@),
    {
        let mut text = from_utf8_lossy(self.kept.as_slice());
        if self.truncated {
            text.append(STDERR_TRUNCATION_MARKER);
        }
        text
    }
}

/// A child's standard output as text.
pub fn stdout_text(bytes: &[u8]) -> (text: String)
    ensures
        text@ == text_of(bytes@),
{
    from_utf8_lossy(bytes)
}

} // verus!
