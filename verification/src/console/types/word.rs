use crate::console::types::byte::Byte;
use vstd::prelude::*;

verus! {

/// A 16-bit machine value with carry-aware wrapping arithmetic and
/// little-endian composition from bytes.
#[derive(Debug, Clone, Copy, PartialEq, Eq, Structural)]
pub struct Word {
    pub val: u16,
}

impl View for Word {
    type V = u16;

    open spec fn view(&self) -> u16 {
        self.val
    }
}

/// Whether the top bit (bit 15) of a 16-bit value is set.
pub open spec fn spec_word_negative(v: u16) -> bool {
    v >= 0x8000
}

impl Default for Word {
    fn default() -> (r: Self)
        ensures
            r@ == 0,
    {
        Word { val: 0 }
    }
}

impl Word {
    pub fn zero() -> (r: Self)
        ensures
            r@ == 0,
    {
        Word { val: 0 }
    }

    pub fn new(value: u16) -> (r: Self)
        ensures
            r@ == value,
    {
        Word { val: value }
    }

    /// Composes a word from a low and a high byte.
    pub fn from_le(low: Byte, high: Byte) -> (r: Self)
        ensures
            r@ == high@ * 256 + low@,
    {
        Word { val: high.val as u16 * 256 + low.val as u16 }
    }

    pub fn value(&self) -> (r: u16)
        ensures
            r == self@,
    {
        self.val
    }

    pub fn set_value(&mut self, value: u16)
        ensures
            final(self)@ == value,
    {
        self.val = value;
    }

    pub fn is_zero(&self) -> (r: bool)
        ensures
            r == (self@ == 0),
    {
        self.val == 0
    }

    /// Whether the top bit (bit 15) is set.
    pub fn is_negative(&self) -> (r: bool)
        ensures
            r == spec_word_negative(self@),
    {
        self.val >= 0x8000
    }

    pub fn low_byte(&self) -> (r: Byte)
        ensures
            r@ == self@ % 256,
    {
        Byte { val: (self.val % 256) as u8 }
    }

    pub fn high_byte(&self) -> (r: Byte)
        ensures
            r@ == self@ / 256,
    {
        Byte { val: (self.val / 256) as u8 }
    }

    pub fn set_low_byte(&mut self, byte: Byte)
        ensures
            final(self)@ == old(self)@ / 256 * 256 + byte@,
    {
        self.val = self.val - self.val % 256 + byte.val as u16;
    }

    pub fn set_high_byte(&mut self, byte: Byte)
        ensures
            final(self)@ == byte@ * 256 + old(self)@ % 256,
    {
        self.val = byte.val as u16 * 256 + self.val % 256;
    }

    /// Wrapping increment; the second component reports the wrap-around.
    pub fn increment(&self) -> (r: (Self, bool))
        ensures
            r.0@ == (self@ + 1) % 0x10000,
            r.1 == (self@ == 0xFFFF),
    {
        self.add_word(Word { val: 1 })
    }

    /// Wrapping decrement; the second component reports the wrap-around.
    pub fn decrement(&self) -> (r: (Self, bool))
        ensures
            r.0@ == (self@ - 1) % 0x10000,
            r.1 == (self@ == 0),
    {
        self.sub_word(Word { val: 1 })
    }

    /// Adds a byte to the low end of the word, wrapping at 16 bits.
    pub fn add_byte_low(&self, byte: Byte) -> (r: (Self, bool))
        ensures
            r.0@ == (self@ + byte@) % 0x10000,
            r.1 == (self@ + byte@ >= 0x10000),
    {
        self.add_word(Word { val: byte.val as u16 })
    }

    /// Adds a byte to the high end of the word, wrapping at 16 bits.
    pub fn add_byte_high(&self, byte: Byte) -> (r: (Self, bool))
        ensures
            r.0@ == (self@ + byte@ * 256) % 0x10000,
            r.1 == (self@ + byte@ * 256 >= 0x10000),
    {
        self.add_word(Word { val: byte.val as u16 * 256 })
    }

    /// Wrapping addition; the second component reports the carry out of bit 15.
    pub fn add_word(&self, word: Word) -> (r: (Self, bool))
        ensures
            r.0@ == (self@ + word@) % 0x10000,
            r.1 == (self@ + word@ >= 0x10000),
    {
        let sum: u32 = self.val as u32 + word.val as u32;
        (Word { val: (sum % 0x10000) as u16 }, sum >= 0x10000)
    }

    /// Subtracts a byte from the low end of the word, wrapping at 16 bits.
    pub fn sub_byte_low(&self, byte: Byte) -> (r: (Self, bool))
        ensures
            r.0@ == (self@ - byte@) % 0x10000,
            r.1 == ((self@ as int) < byte@ as int),
    {
        self.sub_word(Word { val: byte.val as u16 })
    }

    /// Subtracts a byte from the high end of the word, wrapping at 16 bits.
    pub fn sub_byte_high(&self, byte: Byte) -> (r: (Self, bool))
        ensures
            r.0@ == (self@ - byte@ * 256) % 0x10000,
            r.1 == ((self@ as int) < byte@ * 256),
    {
        self.sub_word(Word { val: byte.val as u16 * 256 })
    }

    /// Wrapping subtraction; the second component reports the borrow.
    pub fn sub_word(&self, word: Word) -> (r: (Self, bool))
        ensures
            r.0@ == (self@ - word@) % 0x10000,
            r.1 == (self@ < word@),
    {
        if self.val >= word.val {
            (Word { val: self.val - word.val }, false)
        } else {
            let diff: u32 = 0x10000 + self.val as u32 - word.val as u32;
            (Word { val: (diff % 0x10000) as u16 }, true)
        }
    }
}

} // verus!
