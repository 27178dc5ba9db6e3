use crate::console::types::byte::Byte;
use vstd::prelude::*;

verus! {

/// Interrupt service vector for the timer interrupt.
pub const IV_TIMER: u16 = 0x0040;

/// Interrupt service vector for the input interrupt.
pub const IV_INPUT: u16 = 0x0048;

/// The two interrupt lines, memory-mapped as a byte: bit 0 = timer,
/// bit 1 = input.
#[derive(Debug, Clone, Copy, PartialEq, Eq, Structural)]
pub struct InterruptFlags {
    pub timer: bool,
    pub input: bool,
}

impl Default for InterruptFlags {
    fn default() -> (r: Self)
        ensures
            r == (InterruptFlags { timer: false, input: false }),
    {
        InterruptFlags { timer: false, input: false }
    }
}

impl InterruptFlags {
    /// The memory-mapped byte encoding of the flags.
    pub open spec fn spec_bits(&self) -> u8 {
        ((if self.timer {
            1int
        } else {
            0
        }) + (if self.input {
            2int
        } else {
            0
        })) as u8
    }

    /// The flags encoded by a byte; bits above bit 1 are dropped.
    pub open spec fn spec_from_bits(value: u8) -> InterruptFlags {
        InterruptFlags { timer: value % 2 == 1, input: value / 2 % 2 == 1 }
    }

    /// The lowest-index pending line, if any.
    pub open spec fn spec_first_set(&self) -> Option<InterruptFlags> {
        if self.timer {
            Some(InterruptFlags { timer: true, input: false })
        } else if self.input {
            Some(InterruptFlags { timer: false, input: true })
        } else {
            None
        }
    }

    /// Returns the lowest-index set line as a single-line mask, or `None`
    /// when no line is set.
    pub fn first_set(&self) -> (r: Option<InterruptFlags>)
        ensures
            r == self.spec_first_set(),
    {
        if self.timer {
            Some(InterruptFlags { timer: true, input: false })
        } else if self.input {
            Some(InterruptFlags { timer: false, input: true })
        } else {
            None
        }
    }

    /// The lines set in both operands.
    pub fn intersect(&self, other: InterruptFlags) -> (r: InterruptFlags)
        ensures
            r == (InterruptFlags {
                timer: self.timer && other.timer,
                input: self.input && other.input,
            }),
    {
        InterruptFlags { timer: self.timer && other.timer, input: self.input && other.input }
    }

    pub fn set_input(&mut self)
        ensures
            *final(self) == (InterruptFlags { timer: old(self).timer, input: true }),
    {
        self.input = true;
    }

    pub fn from_byte(byte: Byte) -> (r: Self)
        ensures
            r == InterruptFlags::spec_from_bits(byte@),
    {
        InterruptFlags { timer: byte.val % 2 == 1, input: byte.val / 2 % 2 == 1 }
    }

    pub fn to_byte(&self) -> (r: Byte)
        ensures
            r@ == self.spec_bits(),
    {
        Byte {
            val: (if self.timer {
                1u8
            } else {
                0
            }) + (if self.input {
                2u8
            } else {
                0
            }),
        }
    }
}

} // verus!
