//! Running against a simulated GPIO chip in place of the real one.

use vstd::prelude::*;

verus! {

/// Lines on the simulated chip.
pub const SIM_LINES: u32 = 32;

/// What the simulated chip looks like: one bank of lines, one of them
/// named as the watchdog line is.
#[derive(Debug, PartialEq, Eq)]
pub struct SimPlan {
    pub name: String,
    pub bank_label: String,
    pub num_lines: u32,
    pub line_offset: u32,
    pub line_label: String,
}

/// The simulated chip on which line `line_offset` is named `line_label`.
pub fn simulate_gpio(line_offset: u32, line_label: &str) -> (plan: SimPlan)
    ensures
        plan.name@ == "watchdog_sim"@,
        plan.bank_label@ == "sim_bank"@,
        plan.num_lines == SIM_LINES,
        plan.line_offset == line_offset,
        plan.line_label@ == line_label@,
{
    SimPlan {
        name: "watchdog_sim".to_owned(),
        bank_label: "sim_bank".to_owned(),
        num_lines: SIM_LINES,
        line_offset,
        line_label: line_label.to_owned(),
    }
}

/// Whether the command line asks for the simulated chip: it does where
/// one of its arguments is the word `sim`.
pub fn wants_simulation(args: &Vec<String>) -> (wanted: bool)
    ensures
        wanted <==> exists|i: int| 0 <= i < args.len() && #[trigger] args[i]@ == "sim"@,
{
    let word: String = "sim".to_owned();
    let mut i: usize = 0;
    while i < args.len()
        invariant
            i <= args.len(),
            word@ == "sim"@,
            forall|k: int| 0 <= k < i ==> #[trigger] args[k]@ != "sim"@,
        decreases args.len() - i,
    {
        if args[i] == word {
            return true;
        }
        i += 1;
    }
    false
}

} // verus!
