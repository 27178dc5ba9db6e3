use vstd::prelude::*;

verus! {

/// Key latch bit for the Up key.
pub const KEY_UP: u8 = 0x01;

/// Key latch bit for the Down key.
pub const KEY_DOWN: u8 = 0x02;

/// Key latch bit for the Left key.
pub const KEY_LEFT: u8 = 0x04;

/// Key latch bit for the Right key.
pub const KEY_RIGHT: u8 = 0x08;

/// Key latch bit for the A key.
pub const KEY_A: u8 = 0x10;

/// Key latch bit for the B key.
pub const KEY_B: u8 = 0x20;

/// Key latch bit for the Start key.
pub const KEY_START: u8 = 0x40;

/// Key latch bit for a touch event.
pub const TOUCH: u8 = 0x80;

/// The input controller's key/touch latch byte; every bit is a defined key.
#[derive(Debug, Clone, Copy, PartialEq, Eq, Structural)]
pub struct InputControllerFlags {
    pub bits: u8,
}

impl Default for InputControllerFlags {
    fn default() -> (r: Self)
        ensures
            r.bits == 0,
    {
        InputControllerFlags { bits: 0 }
    }
}

impl InputControllerFlags {
    /// Latches the keys in `mask` in addition to those already latched.
    pub fn insert(&mut self, mask: u8)
        ensures
            final(self).bits == old(self).bits | mask,
    {
        self.bits = self.bits | mask;
    }

    pub fn bits(&self) -> (r: u8)
        ensures
            r == self.bits,
    {
        self.bits
    }

    /// Replaces the latch byte; all eight bits are defined, so nothing is
    /// dropped.
    pub fn set_bits(&mut self, value: u8)
        ensures
            final(self).bits == value,
    {
        self.bits = value;
    }
}

} // verus!
