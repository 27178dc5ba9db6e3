use crate::console::Console;
use vstd::prelude::*;

verus! {

/// A lifecycle edge the worker reports to the consumer over the event
/// queue.
#[derive(Debug)]
pub enum EmulatorEvent {
    CartridgeLoadFailed,
    CartridgeLoadSuccess,
    Shutdown(Box<Console>),
}

} // verus!
