use vstd::prelude::*;

verus! {

/// An observation the debugger makes while inspecting the console.
#[derive(Debug, Clone, Copy, PartialEq, Eq, Structural)]
pub enum DebuggerEvent {
    Breakpoint,
}

} // verus!
