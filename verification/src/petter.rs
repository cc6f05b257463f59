//! The petter: owner of the watchdog line, driving it through the duty
//! cycle one toggle at a time.

use crate::line::AcquireError;
use crate::line::LineView;
use crate::line::WatchdogLine;
use crate::schedule::Phase;
use crate::span::Span;
use vstd::prelude::*;

verus! {

/// What one pet asks for: the level to write to the line, then the delay
/// to arm the pet timer with.
#[derive(Clone, Copy, Debug, PartialEq, Eq, Structural)]
pub struct PetAction {
    pub level: bool,
    pub delay: Span,
}

/// Owner of the watchdog line. Its view is that of the line.
#[derive(Debug, PartialEq, Eq)]
pub struct Petter {
    pub line: WatchdogLine,
}

impl View for Petter {
    type V = LineView;

    open spec fn view(&self) -> LineView {
        self.line@
    }
}

/// What a pet asks for on a line that has the given level.
pub open spec fn pet_action(level: bool) -> PetAction {
    PetAction { level: !level, delay: Phase::spec_of_level(!level).spec_duration() }
}

impl Petter {
    /// Takes line `gpio_line` of `gpio_chip`, which the chip reports under
    /// the name `read_label`, and fails where that is not `gpio_label`.
    /// The line starts inactive, and the first pet will drive it active.
    pub fn new(gpio_chip: &str, gpio_label: &str, gpio_line: u32, read_label: &str) -> (res: Result<
        Petter,
        AcquireError,
    >)
        ensures
            res is Ok <==> read_label@ == gpio_label@,
            res matches Ok(petter) ==> petter@ == LineView::taken(
                gpio_chip@,
                gpio_label@,
                gpio_line,
            ),
            res matches Err(AcquireError::LabelMismatch { expected, found }) ==> {
                &&& expected@ == gpio_label@
                &&& found@ == read_label@
            },
    {
        match WatchdogLine::acquire(gpio_chip, gpio_label, gpio_line, read_label) {
            Ok(line) => Ok(Petter { line }),
            Err(e) => Err(e),
        }
    }

    /// The level that the line was last given.
    pub fn level(&self) -> (level: bool)
        ensures
            level == self@.level,
    {
        self.line.level
    }

    /// Toggles the line: enters the next phase of the duty cycle, and says
    /// which level to write and how long to wait before the next toggle.
    pub fn pet(&mut self) -> (action: PetAction)
        ensures
            action == pet_action(old(self)@.level),
            action.delay.wf(),
            final(self)@ == old(self)@.after_pets(1),
            final(self)@.level == !old(self)@.level,
    {
        let entered: Phase = Phase::of_level(self.line.level).next();
        self.line.write(entered.level());
        proof {
            reveal_with_fuel(LineView::after_pets, 2);
        }
        PetAction { level: entered.level(), delay: entered.duration() }
    }

    /// The pet timer has fired and its expiration was consumed: toggles
    /// the line as `pet` does.
    pub fn on_pet(&mut self) -> (action: PetAction)
        ensures
            action == pet_action(old(self)@.level),
            action.delay.wf(),
            final(self)@ == old(self)@.after_pets(1),
            final(self)@.level == !old(self)@.level,
    {
        self.pet()
    }

    /// Gives the line up: whatever phase it was in, it is left inactive.
    /// Returns the level to write, which is always the inactive one.
    pub fn release(&mut self) -> (level: bool)
        ensures
            !level,
            final(self)@ == old(self)@.released(),
    {
        self.line.write(false);
        false
    }
}

/// Pets alternate: every odd pet leaves the line at the opposite of the
/// level it started from and every even one at that level, so that no two
/// pets in a row leave it at the same level. On a line that starts
/// inactive, as a newly taken one does, the first pet drives it active.
pub proof fn lemma_pets_alternate(line: LineView, pets: nat)
    ensures
        line.after_pets(pets).level == if pets % 2 == 0 {
            line.level
        } else {
            !line.level
        },
        line.after_pets(pets + 1).level != line.after_pets(pets).level,
        !line.level ==> line.after_pets(1).level,
        Phase::spec_of_level(line.after_pets(pets).level) == Phase::spec_of_level(line.level).after(
            pets,
        ),
    decreases pets,
{
    if pets > 0 {
        lemma_pets_alternate(line, (pets - 1) as nat);
    }
}

/// Each pet arms the timer with the length of the phase it enters: a
/// tenth of a second where it drives the line active, nine tenths where
/// it drives it inactive.
pub proof fn lemma_delay_matches_phase(level: bool)
    ensures
        pet_action(level).level == !level,
        pet_action(level).delay == if level {
            Span { secs: 0, nanos: crate::schedule::PET_OFF_NANOS }
        } else {
            Span { secs: 0, nanos: crate::schedule::PET_ON_NANOS }
        },
{
}

/// Pets change nothing of a line but its level, and a release after any
/// number of pets leaves it inactive.
pub proof fn lemma_pets_keep_identity(line: LineView, pets: nat)
    ensures
        line.after_pets(pets).chip == line.chip,
        line.after_pets(pets).index == line.index,
        line.after_pets(pets).label == line.label,
        !line.after_pets(pets).released().level,
    decreases pets,
{
    if pets > 0 {
        lemma_pets_keep_identity(line, (pets - 1) as nat);
    }
}

} // verus!
