use vstd::prelude::*;

verus! {

/// An input event delivered to the console: a key press or a touch with its
/// coordinates.
#[derive(Debug, Clone, Copy, PartialEq, Eq, Structural)]
pub enum ConsoleInput {
    Up,
    Down,
    Left,
    Right,
    A,
    B,
    Start,
    Touch(u8, u8),
}

} // verus!
