use vstd::prelude::*;

verus! {

/// An 8-bit machine value with carry-aware wrapping arithmetic.
#[derive(Debug, Clone, Copy, PartialEq, Eq, Structural)]
pub struct Byte {
    pub val: u8,
}

impl View for Byte {
    type V = u8;

    open spec fn view(&self) -> u8 {
        self.val
    }
}

/// Whether the top bit (bit 7) of an 8-bit value is set.
pub open spec fn spec_byte_negative(v: u8) -> bool {
    v >= 0x80
}

impl Default for Byte {
    fn default() -> (r: Self)
        ensures
            r@ == 0,
    {
        Byte { val: 0 }
    }
}

impl Byte {
    pub fn new(value: u8) -> (r: Self)
        ensures
            r@ == value,
    {
        Byte { val: value }
    }

    pub fn value(&self) -> (r: u8)
        ensures
            r == self@,
    {
        self.val
    }

    pub fn set_value(&mut self, value: u8)
        ensures
            final(self)@ == value,
    {
        self.val = value;
    }

    pub fn is_zero(&self) -> (r: bool)
        ensures
            r == (self@ == 0),
    {
        self.val == 0
    }

    /// Whether the top bit (bit 7) is set.
    pub fn is_negative(&self) -> (r: bool)
        ensures
            r == spec_byte_negative(self@),
    {
        self.val >= 0x80
    }

    /// Wrapping addition; the second component reports the carry out of bit 7.
    pub fn add(&self, byte: Byte) -> (r: (Self, bool))
        ensures
            r.0@ == (self@ + byte@) % 256,
            r.1 == (self@ + byte@ >= 256),
    {
        let sum: u16 = self.val as u16 + byte.val as u16;
        (Byte { val: (sum % 256) as u8 }, sum >= 256)
    }

    /// Wrapping subtraction; the second component reports the borrow.
    pub fn sub(&self, byte: Byte) -> (r: (Self, bool))
        ensures
            r.0@ == (self@ - byte@) % 256,
            r.1 == (self@ < byte@),
    {
        if self.val >= byte.val {
            (Byte { val: self.val - byte.val }, false)
        } else {
            let diff: u16 = 256 + self.val as u16 - byte.val as u16;
            (Byte { val: (diff % 256) as u8 }, true)
        }
    }

    /// Wrapping increment; the second component reports the wrap-around.
    pub fn increment(&self) -> (r: (Self, bool))
        ensures
            r.0@ == (self@ + 1) % 256,
            r.1 == (self@ == 255),
    {
        self.add(Byte { val: 1 })
    }

    /// Wrapping decrement; the second component reports the wrap-around.
    pub fn decrement(&self) -> (r: (Self, bool))
        ensures
            r.0@ == (self@ - 1) % 256,
            r.1 == (self@ == 0),
    {
        self.sub(Byte { val: 1 })
    }
}

} // verus!
