//! Lengths of time, in the shape the kernel's timers report them.

use nix::sys::time::TimeSpec;
use vstd::prelude::*;

verus! {

/// Nanoseconds in one second.
pub const NANOS_PER_SEC: i64 = 1_000_000_000;

/// A length of time: whole seconds and the nanoseconds beyond them.
///
/// The view of a span is its total length in nanoseconds.
#[derive(Clone, Copy, Debug, PartialEq, Eq, Structural)]
pub struct Span {
    pub secs: i64,
    pub nanos: i64,
}

impl View for Span {
    type V = int;

    open spec fn view(&self) -> int {
        self.secs * NANOS_PER_SEC + self.nanos
    }
}

/// Compares two `nix::sys::time::TimeSpec` values, each made by
/// `TimeSpec::new` from the given seconds and nanoseconds, with `<`.
///
/// `TimeSpec` orders by its seconds and, where they are equal, by its
/// nanoseconds; the contract says exactly that and nothing was proved of it.
#[verifier::external_body]
fn timespec_lt(a_secs: i64, a_nanos: i64, b_secs: i64, b_nanos: i64) -> (less: bool)
    ensures
        less == (a_secs < b_secs || (a_secs == b_secs && a_nanos < b_nanos)),
{
    TimeSpec::new(a_secs, a_nanos) < TimeSpec::new(b_secs, b_nanos)
}

impl Span {
    /// A span is well formed when it is not negative and its nanoseconds
    /// stay below one second.
    pub open spec fn wf(self) -> bool {
        &&& 0 <= self.secs
        &&& 0 <= self.nanos < NANOS_PER_SEC
    }

    /// The span of `secs` seconds and `nanos` nanoseconds, if that is well
    /// formed.
    pub fn new(secs: i64, nanos: i64) -> (span: Option<Span>)
        ensures
            span matches Some(s) ==> s.wf() && s.secs == secs && s.nanos == nanos,
            span is Some <==> (Span { secs, nanos }).wf(),
    {
        if 0 <= secs && 0 <= nanos && nanos < NANOS_PER_SEC {
            Some(Span { secs, nanos })
        } else {
            None
        }
    }

    /// The empty span.
    pub fn zero() -> (span: Span)
        ensures
            span.wf(),
            span@ == 0,
            span == (Span { secs: 0, nanos: 0 }),
    {
        Span { secs: 0, nanos: 0 }
    }

    /// Whole seconds of the span.
    pub fn seconds(&self) -> (secs: i64)
        ensures
            secs == self.secs,
    {
        self.secs
    }

    /// Nanoseconds beyond the whole seconds.
    pub fn subsec_nanos(&self) -> (nanos: i64)
        ensures
            nanos == self.nanos,
    {
        self.nanos
    }

    /// Whether the span is empty.
    pub fn is_zero(&self) -> (zero: bool)
        ensures
            zero == (*self == Span { secs: 0, nanos: 0 }),
            self.wf() ==> zero == (self@ == 0),
    {
        self.secs == 0 && self.nanos == 0
    }

    /// The order of spans: by seconds, and by nanoseconds where the seconds
    /// are equal. On well-formed spans this is the order of their lengths.
    pub open spec fn shorter_than(self, other: Span) -> bool {
        self.secs < other.secs || (self.secs == other.secs && self.nanos < other.nanos)
    }

    /// Whether this span is strictly shorter than `other`.
    pub fn lt(&self, other: &Span) -> (less: bool)
        ensures
            less == self.shorter_than(*other),
            self.wf() && other.wf() ==> less == (self@ < other@),
    {
        timespec_lt(self.secs, self.nanos, other.secs, other.nanos)
    }

    /// What is left of this span once `elapsed` has gone by: the
    /// difference, or nothing where `elapsed` is the longer one.
    pub fn saturating_sub(&self, elapsed: &Span) -> (left: Span)
        requires
            self.wf(),
            elapsed.wf(),
        ensures
            left.wf(),
            left@ == if self@ <= elapsed@ { 0 } else { self@ - elapsed@ },
    {
        if self.secs < elapsed.secs || (self.secs == elapsed.secs && self.nanos <= elapsed.nanos) {
            Span { secs: 0, nanos: 0 }
        } else if self.nanos >= elapsed.nanos {
            Span { secs: self.secs - elapsed.secs, nanos: self.nanos - elapsed.nanos }
        } else {
            Span {
                secs: self.secs - elapsed.secs - 1,
                nanos: self.nanos + NANOS_PER_SEC - elapsed.nanos,
            }
        }
    }
}

/// On well-formed spans, being equal and having the same length are one
/// thing: no length is held by two spans.
pub proof fn lemma_span_view_injective(a: Span, b: Span)
    requires
        a.wf(),
        b.wf(),
    ensures
        a@ == b@ <==> a == b,
{
}

/// On well-formed spans the order by seconds and nanoseconds is the order
/// of the lengths.
pub proof fn lemma_shorter_is_less(a: Span, b: Span)
    requires
        a.wf(),
        b.wf(),
    ensures
        a.shorter_than(b) <==> a@ < b@,
{
}

} // verus!
