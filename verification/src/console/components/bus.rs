use crate::console::components::cpu::interrupts::InterruptFlags;
use crate::console::components::input_controller::spec_ic_read;
use crate::console::components::input_controller::spec_ic_write;
use crate::console::components::input_controller::spec_input;
use crate::console::components::input_controller::InputController;
use crate::console::components::ram::spec_ram_zeroed;
use crate::console::components::ram::RAM;
use crate::console::components::rom::ROM;
use crate::console::input::ConsoleInput;
use crate::console::types::address::Address;
use crate::console::types::byte::Byte;
use vstd::prelude::*;

verus! {

/// The mathematical state of the bus: the mapped stores as plain sequences
/// and values, plus the per-step cycle accumulator.
#[verifier::ext_equal]
pub struct BusModel {
    pub rom: Seq<u8>,
    pub ram: Seq<u8>,
    pub ic: InputController,
    pub ie: InterruptFlags,
    pub ia: InterruptFlags,
    pub cycles: u64,
}

/// Whether an address maps a special-function register (IA or IE), which is
/// exempt from cycle accounting.
pub open spec fn spec_is_sfr(addr: u16) -> bool {
    addr >= 0xFFFE
}

/// One increment of the cycle accumulator, wrapping at the machine width.
pub open spec fn spec_tick(cycles: u64) -> u64 {
    if cycles == u64::MAX {
        0
    } else {
        (cycles + 1) as u64
    }
}

/// The bus state after the cycle accounting of one access: non-SFR accesses
/// advance the accumulator by one, SFR accesses are free.
pub open spec fn spec_bus_account(bus: BusModel, addr: u16) -> BusModel {
    if spec_is_sfr(addr) {
        bus
    } else {
        BusModel { cycles: spec_tick(bus.cycles), ..bus }
    }
}

/// The byte the bus yields for an address, decoded through the memory map;
/// sub-regions see the address rebased to their own window.
pub open spec fn spec_bus_read_val(bus: BusModel, addr: u16) -> u8 {
    if addr <= 0x7FFF {
        bus.rom[addr as int]
    } else if addr <= 0xFFFA {
        bus.ram[addr - 0x8000]
    } else if addr <= 0xFFFD {
        spec_ic_read(bus.ic, (addr - 0xFFFB) as u16)
    } else if addr == 0xFFFE {
        bus.ia.spec_bits()
    } else {
        bus.ie.spec_bits()
    }
}

/// The bus state after a read: only the cycle accounting changes.
pub open spec fn spec_bus_read(bus: BusModel, addr: u16) -> BusModel {
    spec_bus_account(bus, addr)
}

/// The bus state after a write: cycle accounting, then the decoded store is
/// updated. Writes to ROM are silently dropped.
pub open spec fn spec_bus_write(bus: BusModel, addr: u16, value: u8) -> BusModel {
    let bus = spec_bus_account(bus, addr);
    if addr <= 0x7FFF {
        bus
    } else if addr <= 0xFFFA {
        BusModel { ram: bus.ram.update(addr - 0x8000, value), ..bus }
    } else if addr <= 0xFFFD {
        BusModel { ic: spec_ic_write(bus.ic, (addr - 0xFFFB) as u16, value), ..bus }
    } else if addr == 0xFFFE {
        BusModel { ia: InterruptFlags::spec_from_bits(value), ..bus }
    } else {
        BusModel { ie: InterruptFlags::spec_from_bits(value), ..bus }
    }
}

/// The bus state after an input event: the controller latches the event and
/// the input interrupt line goes active.
pub open spec fn spec_bus_input(bus: BusModel, input: ConsoleInput) -> BusModel {
    BusModel {
        ia: InterruptFlags { timer: bus.ia.timer, input: true },
        ic: spec_input(bus.ic, input),
        ..bus
    }
}

/// The address decoder: maps ROM, RAM, the input controller and the
/// interrupt registers into one 64 KiB space and accounts cycles per access.
#[derive(Debug, Clone)]
pub struct Bus {
    pub rom: ROM,
    pub ram: RAM,
    pub ic: InputController,
    /// Interrupt enable; memory mapped, but a CPU-internal register.
    pub ie: InterruptFlags,
    /// Interrupt active; memory mapped, but a CPU-internal register.
    pub ia: InterruptFlags,
    pub step_cycles: u64,
}

impl View for Bus {
    type V = BusModel;

    open spec fn view(&self) -> BusModel {
        BusModel {
            rom: self.rom.data@,
            ram: self.ram.data@,
            ic: self.ic,
            ie: self.ie,
            ia: self.ia,
            cycles: self.step_cycles,
        }
    }
}

impl Default for Bus {
    /// An empty bus: all-zero ROM and RAM, idle controller, clear interrupt
    /// registers.
    fn default() -> (r: Self)
        ensures
            r.wf(),
            r@.ram == spec_ram_zeroed(),
            r@.rom == crate::console::components::rom::spec_rom_of(Seq::<u8>::empty()),
            r@.ic == (InputController {
                touch_input_x: Byte { val: 0 },
                touch_input_y: Byte { val: 0 },
                flags: crate::console::components::input_controller::flags::InputControllerFlags {
                    bits: 0,
                },
            }),
            r@.ie == (InterruptFlags { timer: false, input: false }),
            r@.ia == (InterruptFlags { timer: false, input: false }),
            r@.cycles == 0,
    {
        Bus {
            rom: ROM::default(),
            ram: RAM::default(),
            ic: InputController::default(),
            ie: InterruptFlags::default(),
            ia: InterruptFlags::default(),
            step_cycles: 0,
        }
    }
}

impl Bus {
    /// First ROM address.
    pub const ROM_START: u16 = 0x0000;

    /// Last ROM address.
    pub const ROM_END: u16 = 0x7FFF;

    /// First RAM address.
    pub const RAM_START: u16 = 0x8000;

    /// Last RAM address.
    pub const RAM_END: u16 = 0xFFFA;

    /// Stack pointer installed on reset.
    pub const DEFAULT_SP: u16 = 0xFFFA;

    /// First input controller address.
    pub const IC_START: u16 = 0xFFFB;

    /// Last input controller address.
    pub const IC_END: u16 = 0xFFFD;

    /// Touch x coordinate register.
    pub const INPUT_TOUCH_X: u16 = 0xFFFB;

    /// Touch y coordinate register.
    pub const INPUT_TOUCH_Y: u16 = 0xFFFC;

    /// Key/touch latch register.
    pub const INPUT_FLAGS: u16 = 0xFFFD;

    /// First special-function register address.
    pub const SFR_START: u16 = 0xFFFE;

    /// Last special-function register address.
    pub const SFR_END: u16 = 0xFFFF;

    /// Interrupt active register.
    pub const INTERRUPT_ACTIVE: u16 = 0xFFFE;

    /// Interrupt enable register.
    pub const INTERRUPT_ENABLE: u16 = 0xFFFF;

    /// The backing stores span their full capacity.
    pub open spec fn wf(&self) -> bool {
        self.rom.wf() && self.ram.wf()
    }

    /// Advances the per-step cycle accumulator by one.
    pub fn tick(&mut self)
        ensures
            final(self)@ == (BusModel { cycles: spec_tick(old(self)@.cycles), ..old(self)@ }),
            final(self).wf() == old(self).wf(),
    {
        self.step_cycles = if self.step_cycles == u64::MAX {
            0
        } else {
            self.step_cycles + 1
        };
    }

    /// Zeroes the RAM; ROM, the input controller and the interrupt registers
    /// are untouched.
    pub fn reset(&mut self)
        ensures
            final(self)@ == (BusModel { ram: spec_ram_zeroed(), ..old(self)@ }),
            old(self).wf() ==> final(self).wf(),
    {
        self.ram.reset();
    }

    /// Returns the accumulated cycles of the current step and zeroes the
    /// accumulator.
    pub fn take_step_cycles(&mut self) -> (r: u64)
        ensures
            r == old(self)@.cycles,
            final(self)@ == (BusModel { cycles: 0, ..old(self)@ }),
            final(self).wf() == old(self).wf(),
    {
        let cycles = self.step_cycles;
        self.step_cycles = 0;
        cycles
    }

    /// Reads a byte through the memory map, accounting one cycle unless the
    /// address is an SFR.
    pub fn read(&mut self, addr: Address) -> (r: Byte)
        requires
            old(self).wf(),
        ensures
            final(self).wf(),
            r@ == spec_bus_read_val(old(self)@, addr@),
            final(self)@ == spec_bus_read(old(self)@, addr@),
    {
        if !addr.is_in_range(Self::SFR_START, Self::SFR_END) {
            self.tick();
        }
        let a = addr.word.value();
        if a <= Self::ROM_END {
            self.rom.read(addr)
        } else if a <= Self::RAM_END {
            self.ram.read(Address::from_u16(a - Self::RAM_START))
        } else if a <= Self::IC_END {
            self.ic.read(Address::from_u16(a - Self::IC_START))
        } else if a == Self::INTERRUPT_ACTIVE {
            self.ia.to_byte()
        } else {
            self.ie.to_byte()
        }
    }

    /// Writes a byte through the memory map, accounting one cycle unless the
    /// address is an SFR. Writes to ROM are silently dropped.
    pub fn write(&mut self, addr: Address, value: Byte)
        requires
            old(self).wf(),
        ensures
            final(self).wf(),
            final(self)@ == spec_bus_write(old(self)@, addr@, value@),
    {
        if !addr.is_in_range(Self::SFR_START, Self::SFR_END) {
            self.tick();
        }
        let a = addr.word.value();
        if a <= Self::ROM_END {
            // ROM is read-only; the write is dropped.
        } else if a <= Self::RAM_END {
            self.ram.write(Address::from_u16(a - Self::RAM_START), value);
        } else if a <= Self::IC_END {
            self.ic.write(Address::from_u16(a - Self::IC_START), value);
        } else if a == Self::INTERRUPT_ACTIVE {
            self.ia = InterruptFlags::from_byte(value);
        } else {
            self.ie = InterruptFlags::from_byte(value);
        }
    }

    /// Latches an input event and raises the input interrupt line.
    pub fn input(&mut self, input: ConsoleInput)
        ensures
            final(self)@ == spec_bus_input(old(self)@, input),
            final(self).wf() == old(self).wf(),
    {
        self.ia.set_input();
        self.ic.input(input);
    }
}

} // verus!
