use crate::console::types::word::Word;
use vstd::prelude::*;

verus! {

/// A location in the 64 KiB address space.
#[derive(Debug, Clone, Copy, PartialEq, Eq, Structural)]
pub struct Address {
    pub word: Word,
}

impl View for Address {
    type V = u16;

    open spec fn view(&self) -> u16 {
        self.word@
    }
}

impl Default for Address {
    fn default() -> (r: Self)
        ensures
            r@ == 0,
    {
        Address { word: Word { val: 0 } }
    }
}

impl Address {
    pub fn new(value: Word) -> (r: Self)
        ensures
            r@ == value@,
    {
        Address { word: value }
    }

    pub fn from_u16(value: u16) -> (r: Self)
        ensures
            r@ == value,
    {
        Address { word: Word { val: value } }
    }

    pub fn value(&self) -> (r: Word)
        ensures
            r@ == self@,
    {
        self.word
    }

    pub fn set_value(&mut self, value: Word)
        ensures
            final(self)@ == value@,
    {
        self.word = value;
    }

    /// Inclusive range containment.
    pub fn is_in_range(&self, start: u16, end: u16) -> (r: bool)
        ensures
            r == (start <= self@ <= end),
    {
        start <= self.word.val && self.word.val <= end
    }
}

} // verus!
