use crate::console::components::cpu::step_flags::CPUStepFlags;
use vstd::prelude::*;

verus! {

/// The outcome of one console step: the cycles the bus accounted and the
/// flags the CPU raised.
#[derive(Debug, Clone, Copy, PartialEq, Eq, Structural)]
pub struct ConsoleStep {
    pub cycles: u64,
    pub cpu_step_flags: CPUStepFlags,
}

} // verus!
