//! Lengths of time.

use vstd::prelude::*;

use crate::outside::{debug_duration, duration_debug};

verus! {

pub const NANOS_PER_SEC: u32 = 1_000_000_000;

pub const NANOS_PER_MILLI: u32 = 1_000_000;

/// A length of time: whole seconds and the nanoseconds beyond them.
#[derive(Debug, Clone, Copy, PartialEq, Eq)]
pub struct Span {
    secs: u64,
    nanos: u32,
}

impl View for Span {
    /// The nanoseconds.
    type V = nat;

    closed spec fn view(&self) -> nat {
        (self.secs * NANOS_PER_SEC + self.nanos) as nat
    }
}

impl DeepView for Span {
    type V = nat;

    open spec fn deep_view(&self) -> nat {
        self@
    }
}

/// The way `{:?}` writes a length of time of `nanos` nanoseconds.
pub open spec fn span_text(nanos: nat) -> Seq<char> {
    debug_duration((nanos / NANOS_PER_SEC as nat) as u64, (nanos % NANOS_PER_SEC as nat) as u32)
}

impl Span {
    #[verifier::type_invariant]
    spec fn well_formed(self) -> bool {
        self.nanos < NANOS_PER_SEC
    }

    /// The length of `secs` seconds and `nanos` nanoseconds.
    pub fn new(secs: u64, nanos: u32) -> (span: Span)
        requires
            nanos < NANOS_PER_SEC,
        ensures
            span@ == secs * NANOS_PER_SEC + nanos,
    {
        Span { secs, nanos }
    }

    pub fn from_secs(secs: u64) -> (span: Span)
        ensures
            span@ == secs * NANOS_PER_SEC,
    {
        Span { secs, nanos: 0 }
    }

    pub fn from_millis(millis: u64) -> (span: Span)
        ensures
            span@ == millis * NANOS_PER_MILLI,
    {
        Span { secs: millis / 1000, nanos: (millis % 1000) as u32 * NANOS_PER_MILLI }
    }

    /// The whole seconds.
    pub fn secs(&self) -> (secs: u64)
        ensures
            secs == self@ / NANOS_PER_SEC as nat,
    {
        proof {
            use_type_invariant(self);
        }
        self.secs
    }

    /// The nanoseconds beyond the whole seconds.
    pub fn subsec_nanos(&self) -> (nanos: u32)
        ensures
            nanos == self@ % NANOS_PER_SEC as nat,
    {
        proof {
            use_type_invariant(self);
        }
        self.nanos
    }

    /// The whole milliseconds.
    pub fn as_millis(&self) -> (millis: u128)
        ensures
            millis == self@ / NANOS_PER_MILLI as nat,
    {
        proof {
            use_type_invariant(self);
        }
        self.secs as u128 * 1000 + (self.nanos / NANOS_PER_MILLI) as u128
    }

    pub fn is_zero(&self) -> (res: bool)
        ensures
            res == (self@ == 0),
    {
        self.secs == 0 && self.nanos == 0
    }

    /// The shorter of the two.
    pub fn min(self, other: Span) -> (span: Span)
        ensures
            span@ == if self@ <= other@ {
                self@
            } else {
                other@
            },
    {
        proof {
            use_type_invariant(&self);
            use_type_invariant(&other);
        }
        if self.secs < other.secs || (self.secs == other.secs && self.nanos <= other.nanos) {
            self
        } else {
            other
        }
    }

    /// What is left of `self` after `elapsed`, nothing where `elapsed` is longer.
    pub fn saturating_sub(self, elapsed: Span) -> (span: Span)
        ensures
            span@ == if self@ <= elapsed@ {
                0
            } else {
                (self@ - elapsed@) as nat
            },
    {
        proof {
            use_type_invariant(&self);
            use_type_invariant(&elapsed);
        }
        if self.secs < elapsed.secs || (self.secs == elapsed.secs && self.nanos <= elapsed.nanos) {
            Span { secs: 0, nanos: 0 }
        } else if self.nanos >= elapsed.nanos {
            Span { secs: self.secs - elapsed.secs, nanos: self.nanos - elapsed.nanos }
        } else {
            Span {
                secs: self.secs - elapsed.secs - 1,
                nanos: NANOS_PER_SEC - elapsed.nanos + self.nanos,
            }
        }
    }

    /// The length as `{:?}` writes it, `150ms` or `5s`.
    pub fn to_text(&self) -> (text: String)
        ensures
            text@ == span_text(self@),
    {
        duration_debug(self.secs(), self.subsec_nanos())
    }
}

/// A length of time is written by its whole seconds and the nanoseconds beyond them.
pub proof fn law_span_in_words(secs: u64, nanos: u32)
    requires
        nanos < 1_000_000_000,
    ensures
        span_text((secs * 1_000_000_000 + nanos) as nat) == debug_duration(secs, nanos),
{
}

} // verus!
