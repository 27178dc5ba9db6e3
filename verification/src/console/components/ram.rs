use crate::console::types::address::Address;
use crate::console::types::byte::Byte;
use vstd::prelude::*;

verus! {

/// RAM capacity in bytes: 32 KiB.
pub const RAM_SIZE: usize = 0x8000;

/// An all-zero RAM image.
pub open spec fn spec_ram_zeroed() -> Seq<u8> {
    Seq::new(0x8000, |i: int| 0u8)
}

/// Read/write 32 KiB, zero-initialised on reset.
#[derive(Debug, Clone)]
pub struct RAM {
    pub data: Vec<u8>,
}

impl RAM {
    /// The backing store always spans exactly RAM capacity.
    pub open spec fn wf(&self) -> bool {
        self.data@.len() == 0x8000
    }

    /// Zeroes the whole RAM.
    pub fn reset(&mut self)
        ensures
            final(self).wf(),
            final(self).data@ == spec_ram_zeroed(),
    {
        let mut data: Vec<u8> = Vec::new();
        let mut i: usize = 0;
        while i < RAM_SIZE
            invariant
                i == data@.len() <= 0x8000,
                forall|j: int| 0 <= j < i ==> data@[j] == 0,
            decreases 0x8000 - i,
        {
            data.push(0);
            i = i + 1;
        }
        self.data = data;
        proof {
            assert(self.data@ =~= spec_ram_zeroed());
        }
    }

    pub fn read(&self, addr: Address) -> (r: Byte)
        requires
            self.wf(),
        ensures
            r@ == self.data@[addr@ as int % 0x8000],
    {
        Byte { val: self.data[addr.word.value() as usize % 0x8000] }
    }

    pub fn write(&mut self, addr: Address, value: Byte)
        requires
            old(self).wf(),
        ensures
            final(self).wf(),
            final(self).data@ == old(self).data@.update(addr@ as int % 0x8000, value@),
    {
        let i: usize = addr.word.value() as usize % 0x8000;
        self.data.set(i, value.value());
    }
}

impl Default for RAM {
    /// A zeroed RAM.
    fn default() -> (r: Self)
        ensures
            r.wf(),
            r.data@ == spec_ram_zeroed(),
    {
        let mut ram = RAM { data: Vec::new() };
        ram.reset();
        ram
    }
}

} // verus!
