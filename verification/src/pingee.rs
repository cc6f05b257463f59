//! The heartbeat side: the socket that heartbeats arrive on, and the
//! inactivity countdown that they keep from running out.

use crate::span::Span;
use vstd::prelude::*;

verus! {

/// Seconds of grace given at startup before heartbeats are insisted on.
pub const GRACE_SECS: i64 = 120;

/// Seconds that a heartbeat buys in the steady state.
pub const STEADY_SECS: i64 = 30;

/// The UDP port that heartbeats are sent to.
pub const HEARTBEAT_PORT: u16 = 20001;

/// The countdown's magnitude at startup.
pub open spec fn spec_grace() -> Span {
    Span { secs: GRACE_SECS, nanos: 0 }
}

/// The countdown's magnitude in the steady state.
pub open spec fn spec_steady() -> Span {
    Span { secs: STEADY_SECS, nanos: 0 }
}

/// The countdown's magnitude at startup.
#[verifier::when_used_as_spec(spec_grace)]
pub fn grace() -> (span: Span)
    ensures
        span == spec_grace(),
        span.wf(),
        span@ == 120_000_000_000,
{
    Span { secs: GRACE_SECS, nanos: 0 }
}

/// The countdown's magnitude in the steady state.
#[verifier::when_used_as_spec(spec_steady)]
pub fn steady() -> (span: Span)
    ensures
        span == spec_steady(),
        span.wf(),
        span@ == 30_000_000_000,
{
    Span { secs: STEADY_SECS, nanos: 0 }
}

/// The IPv4 loopback address, 127.0.0.1, as one number with the first
/// octet in the highest byte.
pub const LOOPBACK: u32 = 0x7f00_0001;

/// An IPv4 address, as one number with the first octet in the highest
/// byte, and a port.
#[derive(Clone, Copy, Debug, PartialEq, Eq, Structural)]
pub struct Endpoint {
    pub host: u32,
    pub port: u16,
}

/// What one attempt to receive from the heartbeat socket came to.
#[derive(Clone, Copy, Debug, PartialEq, Eq, Structural)]
pub enum Receipt {
    /// A datagram was taken off the queue. What it held does not matter.
    Datagram,
    /// The queue is empty.
    WouldBlock,
    /// The socket failed in some other way.
    Failed,
}

/// What to do after one attempt to receive.
#[derive(Clone, Copy, Debug, PartialEq, Eq, Structural)]
pub enum DrainStep {
    /// Receive again: more may be queued.
    Again,
    /// The queue is empty: go on to the countdown.
    Drained,
    /// Give up.
    Failed,
}

/// What the inactivity timer says of itself when read.
#[derive(Clone, Copy, Debug, PartialEq, Eq, Structural)]
pub enum TimerReading {
    /// Not armed, or already run out.
    Disarmed,
    /// Armed to fire once, after the given time.
    OneShot(Span),
    /// Armed to fire again and again, at the given interval.
    Interval(Span),
    /// Armed to fire after the first span and from then on at the second.
    IntervalDelayed(Span, Span),
}

/// What a heartbeat does to the countdown.
#[derive(Clone, Copy, Debug, PartialEq, Eq, Structural)]
pub enum PingAction {
    /// Nothing: enough time is left as it is.
    Keep,
    /// Arm the countdown anew with the given span.
    Rearm(Span),
}

/// Why a heartbeat could not be honoured.
#[derive(Clone, Copy, Debug, PartialEq, Eq, Structural)]
pub enum PingError {
    /// The inactivity timer is not counting down once, as it was set to.
    UnexpectedTimer,
}

/// The rule of the drain: every datagram calls for another attempt, and
/// only an empty queue ends the drain well.
pub open spec fn drain_step(receipt: Receipt) -> DrainStep {
    match receipt {
        Receipt::Datagram => DrainStep::Again,
        Receipt::WouldBlock => DrainStep::Drained,
        Receipt::Failed => DrainStep::Failed,
    }
}

/// How many attempts the drain makes when they come out as `receipts` do,
/// in that order: up to and with the first one that is no datagram.
pub open spec fn drain_attempts(receipts: Seq<Receipt>) -> nat
    decreases receipts.len(),
{
    if receipts.len() == 0 {
        0
    } else if drain_step(receipts[0]) == DrainStep::Again {
        1 + drain_attempts(receipts.drop_first())
    } else {
        1
    }
}

/// The rule of the countdown: a heartbeat arms it anew with the steady
/// magnitude only where less than that is left, and otherwise leaves it
/// alone. A timer that is not counting down once is an error.
pub open spec fn ping_decision(reading: TimerReading) -> Result<PingAction, PingError> {
    match reading {
        TimerReading::OneShot(remaining) => if remaining.shorter_than(spec_steady()) {
            Ok(PingAction::Rearm(spec_steady()))
        } else {
            Ok(PingAction::Keep)
        },
        _ => Err(PingError::UnexpectedTimer),
    }
}

/// Owner of the heartbeat socket and the inactivity timer.
///
/// `armed` is the span that the timer was last armed with.
#[derive(Clone, Copy, Debug, PartialEq, Eq, Structural)]
pub struct Pingee {
    pub endpoint: Endpoint,
    pub armed: Span,
}

impl Pingee {
    /// The pingee at startup.
    pub open spec fn spec_new() -> Pingee {
        Pingee { endpoint: Endpoint { host: LOOPBACK, port: HEARTBEAT_PORT }, armed: spec_grace() }
    }

    /// The pingee at startup: it listens on the loopback address, and its
    /// timer is to be armed with the grace magnitude.
    pub fn new() -> (pingee: Pingee)
        ensures
            pingee == Pingee::spec_new(),
    {
        Pingee { endpoint: Endpoint { host: LOOPBACK, port: HEARTBEAT_PORT }, armed: grace() }
    }

    /// One step of draining the socket: what to do after an attempt to
    /// receive that came to `receipt`.
    pub fn on_receive(&self, receipt: Receipt) -> (step: DrainStep)
        ensures
            step == drain_step(receipt),
    {
        match receipt {
            Receipt::Datagram => DrainStep::Again,
            Receipt::WouldBlock => DrainStep::Drained,
            Receipt::Failed => DrainStep::Failed,
        }
    }

    /// The socket is drained and the timer was read as `reading`: decides
    /// whether to arm the countdown anew.
    pub fn on_ping(&mut self, reading: TimerReading) -> (res: Result<PingAction, PingError>)
        ensures
            res == ping_decision(reading),
            final(self).endpoint == old(self).endpoint,
            final(self).armed == match res {
                Ok(PingAction::Rearm(span)) => span,
                _ => old(self).armed,
            },
    {
        match reading {
            TimerReading::OneShot(remaining) => {
                let limit: Span = steady();
                if remaining.lt(&limit) {
                    self.armed = limit;
                    Ok(PingAction::Rearm(limit))
                } else {
                    Ok(PingAction::Keep)
                }
            },
            _ => Err(PingError::UnexpectedTimer),
        }
    }
}

/// The inactivity countdown by itself: how much time is left before the
/// daemon gives the supervised application up.
#[derive(Clone, Copy, Debug, PartialEq, Eq, Structural)]
pub struct InactivityDeadline {
    pub remaining: Span,
}

impl InactivityDeadline {
    /// A countdown is well formed when what is left of it is.
    pub open spec fn wf(self) -> bool {
        self.remaining.wf()
    }

    /// What the timer says when read: an empty countdown has fired and is
    /// disarmed, any other counts down once.
    pub open spec fn spec_reading(self) -> TimerReading {
        if self.remaining == (Span { secs: 0, nanos: 0 }) {
            TimerReading::Disarmed
        } else {
            TimerReading::OneShot(self.remaining)
        }
    }

    /// The countdown after `elapsed` has gone by.
    pub open spec fn spec_elapse(self, elapsed: Span) -> InactivityDeadline
        recommends
            self.wf(),
            elapsed.wf(),
    {
        InactivityDeadline {
            remaining: if self.remaining@ <= elapsed@ {
                Span { secs: 0, nanos: 0 }
            } else {
                let left = self.remaining@ - elapsed@;
                Span {
                    secs: (left / crate::span::NANOS_PER_SEC as int) as i64,
                    nanos: (left % crate::span::NANOS_PER_SEC as int) as i64,
                }
            },
        }
    }

    /// The countdown after a heartbeat.
    pub open spec fn spec_heartbeat(self) -> InactivityDeadline {
        match ping_decision(self.spec_reading()) {
            Ok(PingAction::Rearm(span)) => InactivityDeadline { remaining: span },
            _ => self,
        }
    }

    /// The countdown at startup, with the whole grace left.
    pub fn new() -> (deadline: InactivityDeadline)
        ensures
            deadline.remaining == spec_grace(),
            deadline.wf(),
    {
        InactivityDeadline { remaining: grace() }
    }

    /// How much time is left.
    pub fn remaining(&self) -> (left: Span)
        ensures
            left == self.remaining,
    {
        self.remaining
    }

    /// Whether the countdown has run out.
    pub fn expired(&self) -> (out: bool)
        ensures
            out == (self.spec_reading() is Disarmed),
            self.wf() ==> out == (self.remaining@ == 0),
    {
        self.remaining.is_zero()
    }

    /// What the timer says when read.
    pub fn reading(&self) -> (reading: TimerReading)
        ensures
            reading == self.spec_reading(),
    {
        if self.remaining.is_zero() {
            TimerReading::Disarmed
        } else {
            TimerReading::OneShot(self.remaining)
        }
    }

    /// Lets `elapsed` go by: that much less is left, and nothing once the
    /// countdown has run out.
    pub fn elapse(&mut self, elapsed: &Span)
        requires
            old(self).wf(),
            elapsed.wf(),
        ensures
            final(self).wf(),
            final(self).remaining@ == if old(self).remaining@ <= elapsed@ {
                0
            } else {
                old(self).remaining@ - elapsed@
            },
            *final(self) == old(self).spec_elapse(*elapsed),
    {
        let left: Span = self.remaining.saturating_sub(elapsed);
        proof {
            crate::span::lemma_span_view_injective(left, old(self).spec_elapse(*elapsed).remaining);
        }
        self.remaining = left;
    }

    /// A heartbeat has arrived: applies the rule of the countdown to what
    /// is left, and says what was decided.
    pub fn heartbeat(&mut self) -> (res: Result<PingAction, PingError>)
        ensures
            res == ping_decision(old(self).spec_reading()),
            *final(self) == old(self).spec_heartbeat(),
            old(self).wf() ==> final(self).wf(),
    {
        let mut pingee: Pingee = Pingee::new();
        let res: Result<PingAction, PingError> = pingee.on_ping(self.reading());
        match res {
            Ok(PingAction::Rearm(span)) => {
                self.remaining = span;
            },
            _ => {},
        }
        res
    }
}

/// A heartbeat that arrives while at least the steady magnitude is left
/// changes nothing.
pub proof fn lemma_early_heartbeat_keeps(deadline: InactivityDeadline)
    requires
        deadline.wf(),
        deadline.remaining@ >= spec_steady()@,
    ensures
        ping_decision(TimerReading::OneShot(deadline.remaining)) == Ok::<PingAction, PingError>(
            PingAction::Keep,
        ),
        deadline.spec_heartbeat() == deadline,
{
}

/// A heartbeat that arrives while less than the steady magnitude is left
/// sets what is left to exactly the steady magnitude: thirty seconds.
pub proof fn lemma_late_heartbeat_rearms(deadline: InactivityDeadline)
    requires
        deadline.wf(),
        deadline.remaining@ < spec_steady()@,
    ensures
        ping_decision(TimerReading::OneShot(deadline.remaining)) == Ok::<PingAction, PingError>(
            PingAction::Rearm(spec_steady()),
        ),
        deadline.remaining@ > 0 ==> deadline.spec_heartbeat().remaining == spec_steady(),
        spec_steady()@ == 30_000_000_000,
{
}

/// The grace is not cut short: a heartbeat that arrives while at least the
/// steady magnitude is left does not change when the countdown runs out.
pub proof fn lemma_grace_is_not_shortened(deadline: InactivityDeadline, elapsed: Span)
    requires
        deadline.wf(),
        elapsed.wf(),
        deadline.remaining@ >= spec_steady()@,
    ensures
        deadline.spec_heartbeat().spec_elapse(elapsed) == deadline.spec_elapse(elapsed),
{
}

/// A countdown that no heartbeat refreshes runs out once as much time has
/// gone by as was left, and not before.
pub proof fn lemma_unrefreshed_countdown_runs_out(deadline: InactivityDeadline, elapsed: Span)
    requires
        deadline.wf(),
        elapsed.wf(),
    ensures
        deadline.spec_elapse(elapsed).wf(),
        deadline.spec_elapse(elapsed).remaining@ == 0 <==> elapsed@ >= deadline.remaining@,
        deadline.spec_elapse(elapsed).spec_reading() is Disarmed <==> elapsed@ >= deadline.remaining@,
{
    if deadline.remaining@ > elapsed@ {
        let left = deadline.remaining@ - elapsed@;
        assert(0 < left <= deadline.remaining@);
        assert(deadline.remaining@ < (i64::MAX as int + 1) * crate::span::NANOS_PER_SEC as int);
    }
}

/// The drain takes everything: with `queued` datagrams waiting, it makes
/// one attempt for each and one more, which finds the queue empty and ends
/// the drain.
pub proof fn lemma_drain_takes_all(queued: nat)
    ensures
        drain_attempts(Seq::new(queued, |i: int| Receipt::Datagram).push(Receipt::WouldBlock))
            == queued + 1,
        drain_step(Receipt::WouldBlock) == DrainStep::Drained,
        drain_step(Receipt::Datagram) == DrainStep::Again,
    decreases queued,
{
    let receipts = Seq::new(queued, |i: int| Receipt::Datagram).push(Receipt::WouldBlock);
    if queued == 0 {
        assert(receipts.len() == 1);
        assert(receipts[0] == Receipt::WouldBlock);
    } else {
        let rest = Seq::new((queued - 1) as nat, |i: int| Receipt::Datagram).push(
            Receipt::WouldBlock,
        );
        assert(receipts[0] == Receipt::Datagram);
        assert(receipts.drop_first() =~= rest);
        lemma_drain_takes_all((queued - 1) as nat);
    }
}

} // verus!
