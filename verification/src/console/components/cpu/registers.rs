use crate::console::components::bus::spec_bus_read;
use crate::console::components::bus::spec_bus_read_val;
use crate::console::components::bus::spec_bus_write;
use crate::console::components::bus::Bus;
use crate::console::components::bus::BusModel;
use crate::console::components::cpu::alu::ALUFlags;
use crate::console::types::address::Address;
use crate::console::types::byte::Byte;
use crate::console::types::word::Word;
use vstd::prelude::*;

verus! {

/// Byte-wide register selectors. `HL` is not a register but the byte at the
/// address formed by `H:L`, so accessing it is a bus access.
#[derive(Debug, Clone, Copy, PartialEq, Eq, Structural)]
pub enum R8 {
    A,
    B,
    C,
    D,
    E,
    H,
    L,
    HL,
}

impl R8 {
    /// The accumulator for 8-bit operations.
    pub const ACC: R8 = R8::A;
}

/// Word-wide register selectors. `BC`, `DE` and `HL` compose two byte
/// registers with the first letter as the high byte; `SP` is a real word
/// register.
#[derive(Debug, Clone, Copy, PartialEq, Eq, Structural)]
pub enum R16 {
    BC,
    DE,
    HL,
    SP,
}

impl R16 {
    /// The accumulator for 16-bit operations.
    pub const ACC: R16 = R16::BC;
}

/// Register pairs for stack operations. `AF` reads and writes `A` as the
/// high byte and the ALU flag byte as the low byte.
#[derive(Debug, Clone, Copy, PartialEq, Eq, Structural)]
pub enum R16S {
    AF,
    BC,
    DE,
    HL,
}

/// The general-purpose register file: byte registers A,B,C,D,E,H,L and the
/// word register SP.
#[derive(Debug, Clone, Copy, PartialEq, Eq, Structural)]
pub struct GeneralRegisters {
    pub a: Byte,
    pub b: Byte,
    pub c: Byte,
    pub d: Byte,
    pub e: Byte,
    pub h: Byte,
    pub l: Byte,
    pub sp: Word,
}

impl Default for GeneralRegisters {
    fn default() -> (r: Self)
        ensures
            r == spec_registers_reset(),
    {
        GeneralRegisters {
            a: Byte { val: 0 },
            b: Byte { val: 0 },
            c: Byte { val: 0 },
            d: Byte { val: 0 },
            e: Byte { val: 0 },
            h: Byte { val: 0 },
            l: Byte { val: 0 },
            sp: Word { val: Bus::DEFAULT_SP },
        }
    }
}

/// The register file installed on reset: every byte register zero, and SP
/// at the default stack top.
pub open spec fn spec_registers_reset() -> GeneralRegisters {
    GeneralRegisters {
        a: Byte { val: 0 },
        b: Byte { val: 0 },
        c: Byte { val: 0 },
        d: Byte { val: 0 },
        e: Byte { val: 0 },
        h: Byte { val: 0 },
        l: Byte { val: 0 },
        sp: Word { val: Bus::DEFAULT_SP },
    }
}

/// The value of a word-wide register view.
pub open spec fn spec_get_r16(regs: GeneralRegisters, r16: R16) -> u16 {
    match r16 {
        R16::BC => (regs.b@ * 256 + regs.c@) as u16,
        R16::DE => (regs.d@ * 256 + regs.e@) as u16,
        R16::HL => (regs.h@ * 256 + regs.l@) as u16,
        R16::SP => regs.sp@,
    }
}

/// The register file after writing a word-wide register view.
pub open spec fn spec_set_r16(regs: GeneralRegisters, r16: R16, value: u16) -> GeneralRegisters {
    let high = Byte { val: (value / 256) as u8 };
    let low = Byte { val: (value % 256) as u8 };
    match r16 {
        R16::BC => GeneralRegisters { b: high, c: low, ..regs },
        R16::DE => GeneralRegisters { d: high, e: low, ..regs },
        R16::HL => GeneralRegisters { h: high, l: low, ..regs },
        R16::SP => GeneralRegisters { sp: Word { val: value }, ..regs },
    }
}

/// The value read through a byte-wide register view, together with the bus
/// state after the access: only `HL` touches the bus.
pub open spec fn spec_get_r8(regs: GeneralRegisters, bus: BusModel, r8: R8) -> (u8, BusModel) {
    match r8 {
        R8::A => (regs.a@, bus),
        R8::B => (regs.b@, bus),
        R8::C => (regs.c@, bus),
        R8::D => (regs.d@, bus),
        R8::E => (regs.e@, bus),
        R8::H => (regs.h@, bus),
        R8::L => (regs.l@, bus),
        R8::HL => {
            let hl = spec_get_r16(regs, R16::HL);
            (spec_bus_read_val(bus, hl), spec_bus_read(bus, hl))
        },
    }
}

/// The register file and bus after writing through a byte-wide register
/// view: only `HL` touches the bus.
pub open spec fn spec_set_r8(
    regs: GeneralRegisters,
    bus: BusModel,
    r8: R8,
    value: u8,
) -> (GeneralRegisters, BusModel) {
    let byte = Byte { val: value };
    match r8 {
        R8::A => (GeneralRegisters { a: byte, ..regs }, bus),
        R8::B => (GeneralRegisters { b: byte, ..regs }, bus),
        R8::C => (GeneralRegisters { c: byte, ..regs }, bus),
        R8::D => (GeneralRegisters { d: byte, ..regs }, bus),
        R8::E => (GeneralRegisters { e: byte, ..regs }, bus),
        R8::H => (GeneralRegisters { h: byte, ..regs }, bus),
        R8::L => (GeneralRegisters { l: byte, ..regs }, bus),
        R8::HL => (regs, spec_bus_write(bus, spec_get_r16(regs, R16::HL), value)),
    }
}

/// The register file and bus after a wrapping increment or decrement of a
/// byte-wide register view: a read through the view, then a write.
pub open spec fn spec_step_r8(
    regs: GeneralRegisters,
    bus: BusModel,
    r8: R8,
    delta: int,
) -> (GeneralRegisters, BusModel) {
    let (value, bus1) = spec_get_r8(regs, bus, r8);
    spec_set_r8(regs, bus1, r8, ((value + delta) % 256) as u8)
}

/// The value of a stack-pair view; `AF` composes `A` with the ALU flag byte.
pub open spec fn spec_get_r16s(regs: GeneralRegisters, r16s: R16S, flags: ALUFlags) -> u16 {
    match r16s {
        R16S::AF => (regs.a@ * 256 + flags.spec_bits()) as u16,
        R16S::BC => spec_get_r16(regs, R16::BC),
        R16S::DE => spec_get_r16(regs, R16::DE),
        R16S::HL => spec_get_r16(regs, R16::HL),
    }
}

/// The register file and flags after writing a stack-pair view; `AF`
/// replaces the flag byte wholesale.
pub open spec fn spec_set_r16s(
    regs: GeneralRegisters,
    flags: ALUFlags,
    r16s: R16S,
    value: u16,
) -> (GeneralRegisters, ALUFlags) {
    match r16s {
        R16S::AF => (
            GeneralRegisters { a: Byte { val: (value / 256) as u8 }, ..regs },
            ALUFlags::spec_from_bits((value % 256) as u8),
        ),
        R16S::BC => (spec_set_r16(regs, R16::BC, value), flags),
        R16S::DE => (spec_set_r16(regs, R16::DE, value), flags),
        R16S::HL => (spec_set_r16(regs, R16::HL, value), flags),
    }
}

impl GeneralRegisters {
    /// Reads through a byte-wide register view; `HL` performs a bus read at
    /// the address `H:L`.
    pub fn get_r8(&self, bus: &mut Bus, r8: R8) -> (r: Byte)
        requires
            old(bus).wf(),
        ensures
            final(bus).wf(),
            (r@, final(bus)@) == spec_get_r8(*self, old(bus)@, r8),
    {
        match r8 {
            R8::A => self.a,
            R8::B => self.b,
            R8::C => self.c,
            R8::D => self.d,
            R8::E => self.e,
            R8::H => self.h,
            R8::L => self.l,
            R8::HL => bus.read(Address::new(self.get_r16(R16::HL))),
        }
    }

    /// Writes through a byte-wide register view; `HL` performs a bus write
    /// at the address `H:L`.
    pub fn set_r8(&mut self, bus: &mut Bus, r8: R8, byte: Byte)
        requires
            old(bus).wf(),
        ensures
            final(bus).wf(),
            (*final(self), final(bus)@) == spec_set_r8(*old(self), old(bus)@, r8, byte@),
    {
        match r8 {
            R8::A => self.a = byte,
            R8::B => self.b = byte,
            R8::C => self.c = byte,
            R8::D => self.d = byte,
            R8::E => self.e = byte,
            R8::H => self.h = byte,
            R8::L => self.l = byte,
            R8::HL => bus.write(Address::new(self.get_r16(R16::HL)), byte),
        }
    }

    /// Wrapping increment through a byte-wide register view; the `HL`
    /// variant costs a bus read and a bus write.
    pub fn increment_r8(&mut self, bus: &mut Bus, r8: R8)
        requires
            old(bus).wf(),
        ensures
            final(bus).wf(),
            (*final(self), final(bus)@) == spec_step_r8(*old(self), old(bus)@, r8, 1),
    {
        let before_value = self.get_r8(bus, r8);
        self.set_r8(bus, r8, before_value.increment().0);
    }

    /// Wrapping decrement through a byte-wide register view; the `HL`
    /// variant costs a bus read and a bus write.
    pub fn decrement_r8(&mut self, bus: &mut Bus, r8: R8)
        requires
            old(bus).wf(),
        ensures
            final(bus).wf(),
            (*final(self), final(bus)@) == spec_step_r8(*old(self), old(bus)@, r8, -1),
    {
        let before_value = self.get_r8(bus, r8);
        self.set_r8(bus, r8, before_value.decrement().0);
    }

    /// Reads a word-wide register view.
    pub fn get_r16(&self, r16: R16) -> (r: Word)
        ensures
            r@ == spec_get_r16(*self, r16),
    {
        match r16 {
            R16::BC => Word::from_le(self.c, self.b),
            R16::DE => Word::from_le(self.e, self.d),
            R16::HL => Word::from_le(self.l, self.h),
            R16::SP => self.sp,
        }
    }

    /// Writes a word-wide register view.
    pub fn set_r16(&mut self, r16: R16, word: Word)
        ensures
            *final(self) == spec_set_r16(*old(self), r16, word@),
    {
        match r16 {
            R16::BC => {
                self.b = word.high_byte();
                self.c = word.low_byte();
            },
            R16::DE => {
                self.d = word.high_byte();
                self.e = word.low_byte();
            },
            R16::HL => {
                self.h = word.high_byte();
                self.l = word.low_byte();
            },
            R16::SP => self.sp = word,
        }
    }

    /// Wrapping increment of a word-wide register view.
    pub fn increment_r16(&mut self, r16: R16)
        ensures
            *final(self) == spec_set_r16(
                *old(self),
                r16,
                ((spec_get_r16(*old(self), r16) + 1) % 0x10000) as u16,
            ),
    {
        self.set_r16(r16, self.get_r16(r16).increment().0);
    }

    /// Wrapping decrement of a word-wide register view.
    pub fn decrement_r16(&mut self, r16: R16)
        ensures
            *final(self) == spec_set_r16(
                *old(self),
                r16,
                ((spec_get_r16(*old(self), r16) - 1) % 0x10000) as u16,
            ),
    {
        self.set_r16(r16, self.get_r16(r16).decrement().0);
    }

    /// Reads a stack-pair view; `AF` composes `A` with the flag byte.
    pub fn get_r16s(&self, r16s: R16S, flags: ALUFlags) -> (r: Word)
        ensures
            r@ == spec_get_r16s(*self, r16s, flags),
    {
        match r16s {
            R16S::AF => Word::from_le(Byte { val: flags.bits() }, self.a),
            R16S::BC => Word::from_le(self.c, self.b),
            R16S::DE => Word::from_le(self.e, self.d),
            R16S::HL => Word::from_le(self.l, self.h),
        }
    }

    /// Writes a stack-pair view; `AF` replaces the flag byte wholesale.
    pub fn set_r16s(&mut self, r16s: R16S, flags: &mut ALUFlags, word: Word)
        ensures
            (*final(self), *final(flags)) == spec_set_r16s(*old(self), *old(flags), r16s, word@),
    {
        match r16s {
            R16S::AF => {
                self.a = word.high_byte();
                flags.set_bits(word.low_byte().value());
            },
            R16S::BC => {
                self.b = word.high_byte();
                self.c = word.low_byte();
            },
            R16S::DE => {
                self.d = word.high_byte();
                self.e = word.low_byte();
            },
            R16S::HL => {
                self.h = word.high_byte();
                self.l = word.low_byte();
            },
        }
    }

    pub fn get_a(&self) -> (r: Byte)
        ensures
            r == self.a,
    {
        self.a
    }

    pub fn get_b(&self) -> (r: Byte)
        ensures
            r == self.b,
    {
        self.b
    }

    pub fn get_c(&self) -> (r: Byte)
        ensures
            r == self.c,
    {
        self.c
    }

    pub fn get_d(&self) -> (r: Byte)
        ensures
            r == self.d,
    {
        self.d
    }

    pub fn get_e(&self) -> (r: Byte)
        ensures
            r == self.e,
    {
        self.e
    }

    pub fn get_h(&self) -> (r: Byte)
        ensures
            r == self.h,
    {
        self.h
    }

    pub fn get_l(&self) -> (r: Byte)
        ensures
            r == self.l,
    {
        self.l
    }

    pub fn get_sp(&self) -> (r: Word)
        ensures
            r == self.sp,
    {
        self.sp
    }
}

} // verus!
