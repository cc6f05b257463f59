//! The watchdog output line as the daemon knows it: which line it is, and
//! the level that the daemon itself last gave it.

use vstd::prelude::*;

verus! {

/// The line of the chip that the watchdog circuit is wired to.
pub const GPIO_LINE: u32 = 25;

/// The chip that carries the watchdog line.
pub fn gpio_chip() -> (chip: &'static str)
    ensures
        chip@ == "gpiochip2"@,
{
    "gpiochip2"
}

/// The name that the chip must report for the watchdog line.
pub fn gpio_label() -> (label: &'static str)
    ensures
        label@ == "PET_WDT"@,
{
    "PET_WDT"
}

/// The tag under which the daemon asks for the line, shown by the kernel
/// to whoever lists the chip's lines.
pub fn consumer_tag() -> (tag: &'static str)
    ensures
        tag@ == "C3_Watchdog"@,
{
    "C3_Watchdog"
}

/// What to ask of the chip when taking the line: one output line, and the
/// level it starts at. The request goes out under the consumer tag.
#[derive(Clone, Copy, Debug, PartialEq, Eq, Structural)]
pub struct LineRequest {
    pub line: u32,
    pub initial_level: bool,
}

/// Why the line could not be taken.
#[derive(Debug, PartialEq, Eq)]
pub enum AcquireError {
    /// The chip names the line otherwise than expected: it is wired to
    /// something else, and must not be driven.
    LabelMismatch { expected: String, found: String },
}

/// The output line that pets the watchdog circuit.
///
/// The level is the one the daemon last wrote; the line is never read.
#[derive(Debug, PartialEq, Eq)]
pub struct WatchdogLine {
    pub chip: String,
    pub index: u32,
    pub label: String,
    pub level: bool,
}

/// A watchdog line as the contracts see it.
#[verifier::ext_equal]
pub struct LineView {
    pub chip: Seq<char>,
    pub index: u32,
    pub label: Seq<char>,
    pub level: bool,
}

impl View for WatchdogLine {
    type V = LineView;

    open spec fn view(&self) -> LineView {
        LineView { chip: self.chip@, index: self.index, label: self.label@, level: self.level }
    }
}

impl LineView {
    /// Line `index` of `chip`, named `label`, as it is when newly taken:
    /// inactive.
    pub open spec fn taken(chip: Seq<char>, label: Seq<char>, index: u32) -> LineView {
        LineView { chip, index, label, level: false }
    }

    /// The line with `level` written to it.
    pub open spec fn written(self, level: bool) -> LineView {
        LineView { level, ..self }
    }

    /// The line after `pets` toggles.
    pub open spec fn after_pets(self, pets: nat) -> LineView
        decreases pets,
    {
        if pets == 0 {
            self
        } else {
            let before = self.after_pets((pets - 1) as nat);
            before.written(!before.level)
        }
    }

    /// The line once it is given up: inactive.
    pub open spec fn released(self) -> LineView {
        self.written(false)
    }
}

impl WatchdogLine {
    /// Takes line `index` of `chip`, which the chip reports under the name
    /// `found_label`. Succeeds exactly when that name is `expected_label`;
    /// the line then starts inactive.
    pub fn acquire(chip: &str, expected_label: &str, index: u32, found_label: &str) -> (res: Result<
        WatchdogLine,
        AcquireError,
    >)
        ensures
            res is Ok <==> found_label@ == expected_label@,
            res matches Ok(line) ==> line@ == LineView::taken(chip@, expected_label@, index),
            res matches Err(AcquireError::LabelMismatch { expected, found }) ==> {
                &&& expected@ == expected_label@
                &&& found@ == found_label@
            },
    {
        let expected: String = expected_label.to_owned();
        let found: String = found_label.to_owned();
        if found == expected {
            Ok(WatchdogLine { chip: chip.to_owned(), index, label: expected, level: false })
        } else {
            Err(AcquireError::LabelMismatch { expected, found })
        }
    }

    /// The request that takes this line: as an output, inactive from the
    /// start.
    pub fn request(&self) -> (request: LineRequest)
        ensures
            request == (LineRequest { line: self@.index, initial_level: false }),
    {
        LineRequest { line: self.index, initial_level: false }
    }

    /// The level that the daemon last gave the line.
    pub fn level(&self) -> (level: bool)
        ensures
            level == self@.level,
    {
        self.level
    }

    /// Records that `level` was written to the line.
    pub fn write(&mut self, level: bool)
        ensures
            final(self)@ == old(self)@.written(level),
    {
        self.level = level;
    }
}

} // verus!
