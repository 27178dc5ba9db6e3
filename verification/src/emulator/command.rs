use crate::console::cartridge::Cartridge;
use crate::console::input::ConsoleInput;
use crate::console::types::address::Address;
use vstd::prelude::*;

verus! {

/// An operator intent, delivered to the worker over the command queue. All
/// consumer intents travel as data on a single queue, which serialises them
/// relative to stepping.
#[derive(Debug)]
pub enum EmulatorCommand {
    Load(Box<Cartridge>),
    Step,
    Reset,
    Run,
    Pause,
    Shutdown,
    Input(ConsoleInput),
    SetClockSpeed(u64),
    SetBreakpoint(Address),
    RemoveBreakpoint(Address),
}

} // verus!
