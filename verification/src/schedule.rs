//! The duty cycle of the watchdog line: a short active pulse, a long
//! inactive rest, over and over.

use crate::span::Span;
use vstd::prelude::*;

verus! {

/// How long the line stays active after a pet, in nanoseconds.
pub const PET_ON_NANOS: i64 = 100_000_000;

/// How long the line stays inactive before the next pet, in nanoseconds.
pub const PET_OFF_NANOS: i64 = 900_000_000;

/// One of the two phases of the duty cycle.
#[derive(Clone, Copy, Debug, PartialEq, Eq, Structural)]
pub enum Phase {
    /// The line is driven active.
    Active,
    /// The line is driven inactive.
    Inactive,
}

impl Phase {
    /// The level that the line has during this phase.
    pub open spec fn spec_level(self) -> bool {
        self is Active
    }

    /// How long this phase lasts.
    pub open spec fn spec_duration(self) -> Span {
        match self {
            Phase::Active => Span { secs: 0, nanos: PET_ON_NANOS },
            Phase::Inactive => Span { secs: 0, nanos: PET_OFF_NANOS },
        }
    }

    /// The phase that follows this one.
    pub open spec fn spec_next(self) -> Phase {
        match self {
            Phase::Active => Phase::Inactive,
            Phase::Inactive => Phase::Active,
        }
    }

    /// The phase during which the line has the given level.
    pub open spec fn spec_of_level(level: bool) -> Phase {
        if level {
            Phase::Active
        } else {
            Phase::Inactive
        }
    }

    /// The phase reached from this one by `steps` advances.
    pub open spec fn after(self, steps: nat) -> Phase
        decreases steps,
    {
        if steps == 0 {
            self
        } else {
            self.after((steps - 1) as nat).spec_next()
        }
    }

    /// The level that the line has during this phase.
    #[verifier::when_used_as_spec(spec_level)]
    pub fn level(self) -> (level: bool)
        ensures
            level == self.spec_level(),
    {
        match self {
            Phase::Active => true,
            Phase::Inactive => false,
        }
    }

    /// How long this phase lasts: the delay before the toggle that ends it.
    #[verifier::when_used_as_spec(spec_duration)]
    pub fn duration(self) -> (delay: Span)
        ensures
            delay == self.spec_duration(),
            delay.wf(),
    {
        match self {
            Phase::Active => Span { secs: 0, nanos: PET_ON_NANOS },
            Phase::Inactive => Span { secs: 0, nanos: PET_OFF_NANOS },
        }
    }

    /// The phase that follows this one.
    #[verifier::when_used_as_spec(spec_next)]
    pub fn next(self) -> (next: Phase)
        ensures
            next == self.spec_next(),
            next.spec_level() == !self.spec_level(),
    {
        match self {
            Phase::Active => Phase::Inactive,
            Phase::Inactive => Phase::Active,
        }
    }

    /// The phase during which the line has the given level.
    #[verifier::when_used_as_spec(spec_of_level)]
    pub fn of_level(level: bool) -> (phase: Phase)
        ensures
            phase == Phase::spec_of_level(level),
            phase.spec_level() == level,
    {
        if level {
            Phase::Active
        } else {
            Phase::Inactive
        }
    }
}

/// One full cycle lasts a second: the two phases together.
pub proof fn lemma_cycle_lasts_one_second()
    ensures
        Phase::Active.spec_duration()@ + Phase::Inactive.spec_duration()@
            == crate::span::NANOS_PER_SEC,
        Phase::Active.spec_duration().wf(),
        Phase::Inactive.spec_duration().wf(),
{
}

/// Advancing never keeps the level, and two advances come back to the
/// phase they started from.
pub proof fn lemma_advance_toggles(phase: Phase)
    ensures
        phase.spec_next().spec_level() == !phase.spec_level(),
        phase.spec_next().spec_next() == phase,
        Phase::spec_of_level(phase.spec_level()) == phase,
{
}

/// After any number of advances the level is the starting level where the
/// number is even, and its opposite where the number is odd.
pub proof fn lemma_level_after(phase: Phase, steps: nat)
    ensures
        phase.after(steps).spec_level() == if steps % 2 == 0 {
            phase.spec_level()
        } else {
            !phase.spec_level()
        },
        phase.after(steps + 1).spec_level() == !phase.after(steps).spec_level(),
    decreases steps,
{
    if steps > 0 {
        lemma_level_after(phase, (steps - 1) as nat);
    }
}

} // verus!
