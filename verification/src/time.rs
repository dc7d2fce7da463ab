//! Spans of time, counted in whole seconds and nanoseconds as `std::time::Duration` counts them.
use vstd::arithmetic::div_mod::lemma_fundamental_div_mod_converse;
use vstd::prelude::*;

verus! {

pub const NANOS_PER_SEC: u32 = 1_000_000_000;

/// The longest span that can be held, in nanoseconds (that of `std::time::Duration::MAX`).
pub open spec fn span_max() -> int {
    u64::MAX as int * NANOS_PER_SEC as int + (NANOS_PER_SEC - 1)
}

/// A non-negative span of time. Its view is the length in nanoseconds.
#[derive(Clone, Copy, Debug, PartialEq, Eq, Structural)]
pub struct Span {
    pub(crate) secs: u64,
    pub(crate) nanos: u32,
}

impl Span {
    #[verifier::type_invariant]
    spec fn subsec_below_one_second(self) -> bool {
        self.nanos < NANOS_PER_SEC
    }
}

impl View for Span {
    type V = nat;

    closed spec fn view(&self) -> nat {
        (self.secs * NANOS_PER_SEC + self.nanos) as nat
    }
}

impl Span {
    /// A span of `secs` whole seconds.
    pub fn from_secs(secs: u64) -> (d: Span)
        ensures
            d@ == secs * NANOS_PER_SEC,
    {
        Span { secs, nanos: 0 }
    }

    /// A span of `secs` seconds and `nanos` nanoseconds; nanoseconds beyond a second carry
    /// into the seconds, as `Duration::new` does.
    pub fn new(secs: u64, nanos: u32) -> (d: Span)
        requires
            secs + nanos / NANOS_PER_SEC <= u64::MAX,
        ensures
            d@ == secs * NANOS_PER_SEC + nanos,
    {
        let extra: u32 = nanos / NANOS_PER_SEC;
        let rest: u32 = nanos % NANOS_PER_SEC;
        proof {
            lemma_fundamental_div_mod_converse(
                nanos as int,
                NANOS_PER_SEC as int,
                extra as int,
                rest as int,
            );
            assert(nanos == extra * NANOS_PER_SEC + rest) by (nonlinear_arith)
                requires
                    extra == nanos / NANOS_PER_SEC,
                    rest == nanos % NANOS_PER_SEC,
            ;
        }
        Span { secs: secs + extra as u64, nanos: rest }
    }

    /// The whole seconds of the span.
    pub fn as_secs(&self) -> (s: u64)
        ensures
            s == self@ as int / (NANOS_PER_SEC as int),
    {
        proof {
            use_type_invariant(self);
            lemma_fundamental_div_mod_converse(
                self@ as int,
                NANOS_PER_SEC as int,
                self.secs as int,
                self.nanos as int,
            );
        }
        self.secs
    }

    /// The nanoseconds beyond the whole seconds.
    pub fn subsec_nanos(&self) -> (n: u32)
        ensures
            n == self@ as int % (NANOS_PER_SEC as int),
            n < NANOS_PER_SEC,
    {
        proof {
            use_type_invariant(self);
            lemma_fundamental_div_mod_converse(
                self@ as int,
                NANOS_PER_SEC as int,
                self.secs as int,
                self.nanos as int,
            );
        }
        self.nanos
    }

    /// Whether this span is no longer than `other`.
    pub fn le(&self, other: &Span) -> (b: bool)
        ensures
            b == (self@ <= other@),
    {
        proof {
            use_type_invariant(self);
            use_type_invariant(other);
        }
        self.secs < other.secs || (self.secs == other.secs && self.nanos <= other.nanos)
    }

    /// The longer of two spans.
    pub fn max(self, other: Span) -> (d: Span)
        ensures
            d@ == if self@ >= other@ { self@ } else { other@ },
    {
        if other.le(&self) {
            self
        } else {
            other
        }
    }

    /// The shorter of two spans.
    pub fn min(self, other: Span) -> (d: Span)
        ensures
            d@ == if self@ <= other@ { self@ } else { other@ },
    {
        if self.le(&other) {
            self
        } else {
            other
        }
    }

    /// The sum of two spans, or `None` where it exceeds the longest span.
    pub fn checked_add(self, other: Span) -> (d: Option<Span>)
        ensures
            d is None <==> self@ + other@ > span_max(),
            d is Some ==> d->0@ == self@ + other@,
    {
        proof {
            use_type_invariant(self);
            use_type_invariant(other);
        }
        let nanos: u32 = self.nanos + other.nanos;
        let (carry, nanos) = if nanos >= NANOS_PER_SEC {
            (1u64, nanos - NANOS_PER_SEC)
        } else {
            (0u64, nanos)
        };
        if self.secs > u64::MAX - other.secs || self.secs + other.secs > u64::MAX - carry {
            None
        } else {
            Some(Span { secs: self.secs + other.secs + carry, nanos })
        }
    }

    /// The sum of two spans that fits.
    pub fn add(self, other: Span) -> (d: Span)
        requires
            self@ + other@ <= span_max(),
        ensures
            d@ == self@ + other@,
    {
        self.checked_add(other).unwrap()
    }
}

} // verus!
