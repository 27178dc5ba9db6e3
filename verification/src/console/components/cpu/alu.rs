use crate::console::types::byte::spec_byte_negative;
use crate::console::types::byte::Byte;
use crate::console::types::word::spec_word_negative;
use crate::console::types::word::Word;
use vstd::prelude::*;

verus! {

/// The ALU status flags, recomputed by every arithmetic operation.
#[derive(Debug, Clone, Copy, PartialEq, Eq, Structural)]
pub struct ALUFlags {
    pub zero: bool,
    pub carry: bool,
    pub negative: bool,
    /// Signed overflow.
    pub overflow: bool,
}

impl ALUFlags {
    /// The flag byte used for AF stack transfer: bit 0 = zero, bit 1 = carry,
    /// bit 2 = negative, bit 3 = overflow.
    pub open spec fn spec_bits(&self) -> u8 {
        ((if self.zero {
            1int
        } else {
            0
        }) + (if self.carry {
            2int
        } else {
            0
        }) + (if self.negative {
            4int
        } else {
            0
        }) + (if self.overflow {
            8int
        } else {
            0
        })) as u8
    }

    /// The flags encoded by a flag byte; bits above bit 3 are dropped.
    pub open spec fn spec_from_bits(value: u8) -> ALUFlags {
        ALUFlags {
            zero: value % 2 == 1,
            carry: value / 2 % 2 == 1,
            negative: value / 4 % 2 == 1,
            overflow: value / 8 % 2 == 1,
        }
    }

    pub fn bits(&self) -> (r: u8)
        ensures
            r == self.spec_bits(),
    {
        (if self.zero {
            1u8
        } else {
            0
        }) + (if self.carry {
            2u8
        } else {
            0
        }) + (if self.negative {
            4u8
        } else {
            0
        }) + (if self.overflow {
            8u8
        } else {
            0
        })
    }

    /// Replaces the flags with those encoded by `value`, dropping undefined
    /// high bits.
    pub fn set_bits(&mut self, value: u8)
        ensures
            *final(self) == ALUFlags::spec_from_bits(value),
    {
        self.zero = value % 2 == 1;
        self.carry = value / 2 % 2 == 1;
        self.negative = value / 4 % 2 == 1;
        self.overflow = value / 8 % 2 == 1;
    }

    pub fn is_zero(&self) -> (r: bool)
        ensures
            r == self.zero,
    {
        self.zero
    }

    pub fn is_carry(&self) -> (r: bool)
        ensures
            r == self.carry,
    {
        self.carry
    }

    pub fn is_negative(&self) -> (r: bool)
        ensures
            r == self.negative,
    {
        self.negative
    }

    pub fn is_overflow(&self) -> (r: bool)
        ensures
            r == self.overflow,
    {
        self.overflow
    }
}

impl Default for ALUFlags {
    fn default() -> (r: Self)
        ensures
            r == (ALUFlags { zero: false, carry: false, negative: false, overflow: false }),
    {
        ALUFlags { zero: false, carry: false, negative: false, overflow: false }
    }
}

/// Signed overflow of a byte addition: the top bit of `!(a ^ b) & (a ^ r)`.
pub open spec fn spec_byte_add_overflow(a: u8, b: u8, r: u8) -> bool {
    spec_byte_negative(!(a ^ b) & (a ^ r))
}

/// Signed overflow of a byte subtraction: the top bit of `(a ^ b) & (a ^ r)`.
pub open spec fn spec_byte_sub_overflow(a: u8, b: u8, r: u8) -> bool {
    spec_byte_negative((a ^ b) & (a ^ r))
}

/// Signed overflow of a word addition: the top bit of `!(a ^ b) & (a ^ r)`.
pub open spec fn spec_word_add_overflow(a: u16, b: u16, r: u16) -> bool {
    spec_word_negative(!(a ^ b) & (a ^ r))
}

/// Signed overflow of a word subtraction: the top bit of `(a ^ b) & (a ^ r)`.
pub open spec fn spec_word_sub_overflow(a: u16, b: u16, r: u16) -> bool {
    spec_word_negative((a ^ b) & (a ^ r))
}

/// The result and flags of a wrapping byte addition.
pub open spec fn spec_add_bytes(a: u8, b: u8) -> (u8, ALUFlags) {
    let r = ((a + b) % 256) as u8;
    (
        r,
        ALUFlags {
            zero: r == 0,
            carry: a + b >= 256,
            negative: spec_byte_negative(r),
            overflow: spec_byte_add_overflow(a, b, r),
        },
    )
}

/// The result and flags of a wrapping byte subtraction.
pub open spec fn spec_sub_bytes(a: u8, b: u8) -> (u8, ALUFlags) {
    let r = ((a - b) % 256) as u8;
    (
        r,
        ALUFlags {
            zero: r == 0,
            carry: a < b,
            negative: spec_byte_negative(r),
            overflow: spec_byte_sub_overflow(a, b, r),
        },
    )
}

/// The result and flags of a wrapping word addition.
pub open spec fn spec_add_words(a: u16, b: u16) -> (u16, ALUFlags) {
    let r = ((a + b) % 0x10000) as u16;
    (
        r,
        ALUFlags {
            zero: r == 0,
            carry: a + b >= 0x10000,
            negative: spec_word_negative(r),
            overflow: spec_word_add_overflow(a, b, r),
        },
    )
}

/// The result and flags of a wrapping word subtraction.
pub open spec fn spec_sub_words(a: u16, b: u16) -> (u16, ALUFlags) {
    let r = ((a - b) % 0x10000) as u16;
    (
        r,
        ALUFlags {
            zero: r == 0,
            carry: a < b,
            negative: spec_word_negative(r),
            overflow: spec_word_sub_overflow(a, b, r),
        },
    )
}

/// The arithmetic logic unit: byte and word add/subtract, each writing the
/// zero, carry, negative and signed-overflow flags.
#[derive(Debug, Clone, Copy, PartialEq, Eq, Structural)]
pub struct ALU {
    pub flags: ALUFlags,
}

impl Default for ALU {
    fn default() -> (r: Self)
        ensures
            r.flags == (ALUFlags { zero: false, carry: false, negative: false, overflow: false }),
    {
        ALU { flags: ALUFlags::default() }
    }
}

impl ALU {
    pub fn add_bytes(&mut self, a: Byte, b: Byte) -> (r: Byte)
        ensures
            (r@, final(self).flags) == spec_add_bytes(a@, b@),
    {
        let (result, carry) = a.add(b);
        let overflow = Self::byte_add_overflow(a, b, result);
        self.flags = ALUFlags {
            zero: result.is_zero(),
            carry,
            negative: result.is_negative(),
            overflow,
        };
        result
    }

    pub fn sub_bytes(&mut self, a: Byte, b: Byte) -> (r: Byte)
        ensures
            (r@, final(self).flags) == spec_sub_bytes(a@, b@),
    {
        let (result, carry) = a.sub(b);
        let overflow = Self::byte_sub_overflow(a, b, result);
        self.flags = ALUFlags {
            zero: result.is_zero(),
            carry,
            negative: result.is_negative(),
            overflow,
        };
        result
    }

    pub fn add_words(&mut self, a: Word, b: Word) -> (r: Word)
        ensures
            (r@, final(self).flags) == spec_add_words(a@, b@),
    {
        let (result, carry) = a.add_word(b);
        let overflow = Self::word_add_overflow(a, b, result);
        self.flags = ALUFlags {
            zero: result.is_zero(),
            carry,
            negative: result.is_negative(),
            overflow,
        };
        result
    }

    pub fn sub_words(&mut self, a: Word, b: Word) -> (r: Word)
        ensures
            (r@, final(self).flags) == spec_sub_words(a@, b@),
    {
        let (result, carry) = a.sub_word(b);
        let overflow = Self::word_sub_overflow(a, b, result);
        self.flags = ALUFlags {
            zero: result.is_zero(),
            carry,
            negative: result.is_negative(),
            overflow,
        };
        result
    }

    pub fn get_flags(&self) -> (r: ALUFlags)
        ensures
            r == self.flags,
    {
        self.flags
    }

    fn byte_add_overflow(a: Byte, b: Byte, result: Byte) -> (r: bool)
        ensures
            r == spec_byte_add_overflow(a@, b@, result@),
    {
        (!(a.val ^ b.val) & (a.val ^ result.val)) >= 0x80
    }

    fn byte_sub_overflow(a: Byte, b: Byte, result: Byte) -> (r: bool)
        ensures
            r == spec_byte_sub_overflow(a@, b@, result@),
    {
        ((a.val ^ b.val) & (a.val ^ result.val)) >= 0x80
    }

    fn word_add_overflow(a: Word, b: Word, result: Word) -> (r: bool)
        ensures
            r == spec_word_add_overflow(a@, b@, result@),
    {
        (!(a.val ^ b.val) & (a.val ^ result.val)) >= 0x8000
    }

    fn word_sub_overflow(a: Word, b: Word, result: Word) -> (r: bool)
        ensures
            r == spec_word_sub_overflow(a@, b@, result@),
    {
        ((a.val ^ b.val) & (a.val ^ result.val)) >= 0x8000
    }
}

} // verus!
