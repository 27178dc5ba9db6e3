use crate::console::components::cpu::CPU;
use crate::console::types::address::Address;
use vstd::prelude::*;

verus! {

/// The consumer-visible snapshot the worker publishes once per frame: a
/// value copy, never a live view.
#[derive(Debug)]
pub struct EmulatorState {
    pub cpu_snapshot: CPU,
    pub is_running: bool,
    pub is_halting: bool,
    pub cycles_per_second: u64,
    pub last_frame_micros: u64,
    pub last_frame_cycles: u64,
    pub breakpoints: Vec<Address>,
}

impl EmulatorState {
    /// An empty snapshot, published before the first frame.
    pub fn new() -> (r: Self)
        ensures
            r.cpu_snapshot == crate::console::components::cpu::spec_cpu_reset(),
            !r.is_running,
            !r.is_halting,
            r.cycles_per_second == 0,
            r.last_frame_micros == 0,
            r.last_frame_cycles == 0,
            r.breakpoints@.len() == 0,
    {
        EmulatorState {
            cpu_snapshot: CPU::default(),
            is_running: false,
            is_halting: false,
            cycles_per_second: 0,
            last_frame_micros: 0,
            last_frame_cycles: 0,
            breakpoints: Vec::new(),
        }
    }
}

impl Default for EmulatorState {
    fn default() -> (r: Self)
        ensures
            r.cpu_snapshot == crate::console::components::cpu::spec_cpu_reset(),
            !r.is_running,
            !r.is_halting,
            r.cycles_per_second == 0,
            r.last_frame_micros == 0,
            r.last_frame_cycles == 0,
            r.breakpoints@.len() == 0,
    {
        EmulatorState::new()
    }
}

} // verus!
