//! Spans of time, in whole milliseconds.

use vstd::prelude::*;

verus! {

/// A span of time, as timeouts and pauses need it.
#[derive(Debug, Clone, Copy, PartialEq, Eq, Structural)]
pub struct Span {
    secs: u64,
    millis: u32,
}

impl View for Span {
    type V = nat;

    /// The length in milliseconds.
    closed spec fn view(&self) -> nat {
        self.secs as nat * 1000 + self.millis as nat
    }
}

impl Span {
    #[verifier::type_invariant]
    spec fn wf(self) -> bool {
        self.millis < 1000
    }

    /// A span of `millis` milliseconds.
    pub fn from_millis(millis: u64) -> (r: Span)
        ensures
            r@ == millis,
    {
        Span { secs: millis / 1000, millis: (millis % 1000) as u32 }
    }

    /// A span of `secs` seconds.
    pub fn from_secs(secs: u64) -> (r: Span)
        ensures
            r@ == secs * 1000,
    {
        Span { secs, millis: 0 }
    }

    /// Whether the span has no length.
    pub fn is_zero(&self) -> (r: bool)
        ensures
            r == (self@ == 0),
    {
        self.secs == 0 && self.millis == 0
    }

    /// The whole seconds of the span.
    pub fn secs(&self) -> (r: u64)
        ensures
            r == self@ / 1000,
    {
        proof {
            use_type_invariant(self);
        }
        self.secs
    }

    /// The milliseconds beyond the whole seconds.
    pub fn subsec_millis(&self) -> (r: u32)
        ensures
            r == self@ % 1000,
    {
        proof {
            use_type_invariant(self);
        }
        self.millis
    }
}

} // verus!
