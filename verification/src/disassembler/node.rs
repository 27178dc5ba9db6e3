use crate::console::components::cpu::instructions::CPUInstruction;
use vstd::prelude::*;

verus! {

/// One row of a disassembly: a decoded instruction at its offset, or a
/// trailing operand byte.
#[derive(Debug, Clone, Copy, PartialEq, Eq, Structural)]
pub enum Node {
    Byte(u8),
    Instruction(CPUInstruction),
}

impl Node {
    pub fn byte(byte: u8) -> (r: Self)
        ensures
            r == Node::Byte(byte),
    {
        Self::Byte(byte)
    }

    pub fn instruction(instruction: CPUInstruction) -> (r: Self)
        ensures
            r == Node::Instruction(instruction),
    {
        Self::Instruction(instruction)
    }

    pub fn is_byte(&self) -> (r: bool)
        ensures
            r == (self is Byte),
    {
        matches!(self, Self::Byte(_))
    }

    pub fn is_instruction(&self) -> (r: bool)
        ensures
            r == (self is Instruction),
    {
        matches!(self, Self::Instruction(_))
    }
}

} // verus!
