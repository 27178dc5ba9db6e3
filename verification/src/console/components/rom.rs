use crate::console::cartridge::Cartridge;
use crate::console::types::address::Address;
use crate::console::types::byte::Byte;
use crate::error::LMVC8Error;
use crate::error::LMVC8Result;
use vstd::prelude::*;

verus! {

/// ROM capacity in bytes: 32 KiB.
pub const ROM_SIZE: usize = 0x8000;

/// The image installed for a cartridge: the cartridge bytes zero-padded to
/// exactly ROM capacity.
pub open spec fn spec_rom_of(image: Seq<u8>) -> Seq<u8> {
    Seq::new(
        0x8000,
        |i: int|
            if i < image.len() {
                image[i]
            } else {
                0
            },
    )
}

/// The byte a ROM yields for an address; the address is reduced to ROM
/// capacity.
pub open spec fn spec_rom_read(data: Seq<u8>, addr: u16) -> u8 {
    data[addr as int % 0x8000]
}

/// Read-only 32 KiB image, zero-padded on construction.
#[derive(Debug, Clone)]
pub struct ROM {
    pub data: Vec<u8>,
}

impl ROM {
    /// The image always spans exactly ROM capacity.
    pub open spec fn wf(&self) -> bool {
        self.data@.len() == 0x8000
    }

    /// Builds a ROM from a raw image, zero-padding to capacity; fails when
    /// the image exceeds capacity.
    pub fn new(data: Vec<u8>) -> (r: LMVC8Result<Self>)
        ensures
            data@.len() <= 0x8000 ==> (r matches Ok(rom) && rom.wf() && rom.data@ == spec_rom_of(
                data@,
            )),
            data@.len() > 0x8000 ==> (r matches Err(e) && e == LMVC8Error::ROMSizeExceeded),
    {
        if data.len() > ROM_SIZE {
            return Err(LMVC8Error::ROMSizeExceeded);
        }
        let mut rom_data: Vec<u8> = Vec::new();
        let mut i: usize = 0;
        while i < ROM_SIZE
            invariant
                i == rom_data@.len() <= 0x8000,
                data@.len() <= 0x8000,
                forall|j: int|
                    0 <= j < i ==> rom_data@[j] == (if j < data@.len() {
                        data@[j]
                    } else {
                        0
                    }),
            decreases 0x8000 - i,
        {
            if i < data.len() {
                rom_data.push(data[i]);
            } else {
                rom_data.push(0);
            }
            i = i + 1;
        }
        let rom = ROM { data: rom_data };
        proof {
            assert(rom.data@ =~= spec_rom_of(data@));
        }
        Ok(rom)
    }

    pub fn from_cartridge(cartridge: Cartridge) -> (r: LMVC8Result<Self>)
        ensures
            cartridge.binary@.len() <= 0x8000 ==> (r matches Ok(rom) && rom.wf() && rom.data@
                == spec_rom_of(cartridge.binary@)),
            cartridge.binary@.len() > 0x8000 ==> (r matches Err(e) && e
                == LMVC8Error::ROMSizeExceeded),
    {
        Self::new(cartridge.binary)
    }

    pub fn read(&self, addr: Address) -> (r: Byte)
        requires
            self.wf(),
        ensures
            r@ == spec_rom_read(self.data@, addr@),
    {
        Byte { val: self.data[addr.word.value() as usize % 0x8000] }
    }
}

impl Default for ROM {
    /// An all-zero image.
    fn default() -> (r: Self)
        ensures
            r.wf(),
            r.data@ == spec_rom_of(Seq::<u8>::empty()),
    {
        let mut rom_data: Vec<u8> = Vec::new();
        let mut i: usize = 0;
        while i < ROM_SIZE
            invariant
                i == rom_data@.len() <= 0x8000,
                forall|j: int| 0 <= j < i ==> rom_data@[j] == 0,
            decreases 0x8000 - i,
        {
            rom_data.push(0);
            i = i + 1;
        }
        let rom = ROM { data: rom_data };
        proof {
            assert(rom.data@ =~= spec_rom_of(Seq::<u8>::empty()));
        }
        rom
    }
}

/// What a constructed ROM yields: for an image of length L, every address
/// below L reads the image byte, and every address from L up to capacity
/// reads zero.
pub proof fn lemma_rom_reads_image(rom: ROM, image: Seq<u8>, addr: u16)
    requires
        image.len() <= 0x8000,
        rom.data@ == spec_rom_of(image),
        addr < 0x8000,
    ensures
        addr < image.len() ==> spec_rom_read(rom.data@, addr) == image[addr as int],
        addr >= image.len() ==> spec_rom_read(rom.data@, addr) == 0,
{
}

} // verus!
