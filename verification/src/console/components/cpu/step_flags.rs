use vstd::prelude::*;

verus! {

/// Flags raised by one CPU step.
#[derive(Debug, Clone, Copy, PartialEq, Eq, Structural)]
pub struct CPUStepFlags {
    pub halt: bool,
}

impl Default for CPUStepFlags {
    fn default() -> (r: Self)
        ensures
            r == (CPUStepFlags { halt: false }),
    {
        CPUStepFlags { halt: false }
    }
}

impl CPUStepFlags {
    pub fn is_halt(&self) -> (r: bool)
        ensures
            r == self.halt,
    {
        self.halt
    }
}

} // verus!
