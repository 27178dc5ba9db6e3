use crate::console::cartridge::Cartridge;
use crate::console::components::bus::Bus;
use crate::console::components::bus::BusModel;
use crate::console::components::cpu::spec_cpu_step;
use crate::console::components::cpu::spec_cpu_reset;
use crate::console::components::cpu::CPU;
use crate::console::components::ram::spec_ram_zeroed;
use crate::console::components::rom::spec_rom_of;
use crate::console::components::rom::ROM;
use crate::console::step::ConsoleStep;
use crate::console::types::byte::Byte;
use crate::console::types::word::Word;
use crate::error::LMVC8Error;
use crate::error::LMVC8Result;
use vstd::prelude::*;

pub mod cartridge;
pub mod components;
pub mod input;
pub mod step;
pub mod types;

verus! {

/// The mathematical state of the whole console.
#[verifier::ext_equal]
pub struct ConsoleModel {
    pub cpu: CPU,
    pub bus: BusModel,
}

/// One console step: one CPU step, then the bus cycle accumulator is
/// drained. The second component is the drained cycle count, the third the
/// HALT flag.
pub open spec fn spec_console_step(c: ConsoleModel) -> (ConsoleModel, u64, bool) {
    let (cpu, bus, halt) = spec_cpu_step(c.cpu, c.bus);
    (ConsoleModel { cpu, bus: BusModel { cycles: 0, ..bus } }, bus.cycles, halt)
}

/// The console state after `n` steps.
pub open spec fn spec_step_n(c: ConsoleModel, n: nat) -> ConsoleModel
    decreases n,
{
    if n == 0 {
        c
    } else {
        spec_console_step(spec_step_n(c, (n - 1) as nat)).0
    }
}

/// The cycles drained over the first `n` steps from a state.
pub open spec fn spec_step_cycles_sum(c: ConsoleModel, n: nat) -> int
    decreases n,
{
    if n == 0 {
        0
    } else {
        spec_step_cycles_sum(c, (n - 1) as nat) + spec_console_step(
            spec_step_n(c, (n - 1) as nat),
        ).1
    }
}

/// The console state after stepping until a step raises HALT, with at most
/// `fuel + 1` steps taken.
pub open spec fn spec_run_to_halt(c: ConsoleModel, fuel: nat) -> ConsoleModel
    decreases fuel,
{
    let (c2, cycles, halt) = spec_console_step(c);
    if halt || fuel == 0 {
        c2
    } else {
        spec_run_to_halt(c2, (fuel - 1) as nat)
    }
}

/// The console: the CPU and the bus it drives. The worker owns exactly one
/// console and is the only actor that mutates it.
#[derive(Debug, Clone)]
pub struct Console {
    pub cpu: CPU,
    pub bus: Bus,
}

impl View for Console {
    type V = ConsoleModel;

    open spec fn view(&self) -> ConsoleModel {
        ConsoleModel { cpu: self.cpu, bus: self.bus@ }
    }
}

impl Default for Console {
    fn default() -> (r: Self)
        ensures
            r.wf(),
            r@.cpu == spec_cpu_reset(),
            r@.bus.ram == spec_ram_zeroed(),
            r@.bus.rom == spec_rom_of(Seq::<u8>::empty()),
            r@.bus.cycles == 0,
    {
        Console { cpu: CPU::default(), bus: Bus::default() }
    }
}

impl Console {
    /// The backing stores of the bus span their full capacity.
    pub open spec fn wf(&self) -> bool {
        self.bus.wf()
    }

    /// An empty console: reset CPU, all-zero ROM and RAM.
    pub fn new() -> (r: Self)
        ensures
            r.wf(),
            r@.cpu == spec_cpu_reset(),
            r@.bus.ram == spec_ram_zeroed(),
            r@.bus.rom == spec_rom_of(Seq::<u8>::empty()),
            r@.bus.cycles == 0,
    {
        Console::default()
    }

    /// Restores the CPU reset state (registers cleared, SP at the default
    /// stack top) and zeroes the RAM; the ROM and the input controller
    /// state are preserved.
    pub fn reset(&mut self)
        ensures
            old(self).wf() ==> final(self).wf(),
            final(self)@.cpu == spec_cpu_reset(),
            final(self)@.bus == (BusModel { ram: spec_ram_zeroed(), ..old(self)@.bus }),
    {
        self.cpu.reset();
        self.bus.reset();
    }

    /// Installs a cartridge: validates the image length, then resets the
    /// CPU and RAM and installs the new ROM. On an oversized image the
    /// error is returned and no state is mutated.
    pub fn load_cartridge(&mut self, cartridge: Cartridge) -> (r: LMVC8Result<()>)
        requires
            old(self).wf(),
        ensures
            final(self).wf(),
            cartridge.binary@.len() <= 0x8000 ==> (r is Ok && final(self)@.cpu == spec_cpu_reset()
                && final(self)@.bus == (BusModel {
                rom: spec_rom_of(cartridge.binary@),
                ram: spec_ram_zeroed(),
                ..old(self)@.bus
            })),
            cartridge.binary@.len() > 0x8000 ==> (r matches Err(e) && e
                == LMVC8Error::ROMSizeExceeded && final(self)@ == old(self)@),
    {
        match ROM::from_cartridge(cartridge) {
            Ok(rom) => {
                self.reset();
                self.bus.rom = rom;
                Ok(())
            },
            Err(e) => Err(e),
        }
    }

    /// Performs one CPU step and drains the bus cycle accumulator.
    pub fn step(&mut self) -> (r: ConsoleStep)
        requires
            old(self).wf(),
        ensures
            final(self).wf(),
            (final(self)@, r.cycles, r.cpu_step_flags.halt) == spec_console_step(old(self)@),
    {
        let cpu_step_flags = self.cpu.step(&mut self.bus);
        let cycles = self.bus.take_step_cycles();
        ConsoleStep { cycles, cpu_step_flags }
    }

    /// Steps until a step raises HALT. A guest that never halts is cut off
    /// after an astronomically large number of steps, so the driver itself
    /// always returns.
    pub fn step_till_halt(&mut self)
        requires
            old(self).wf(),
        ensures
            final(self).wf(),
            final(self)@ == spec_run_to_halt(old(self)@, u64::MAX as nat),
    {
        let ghost orig = self@;
        let mut remaining: u64 = u64::MAX;
        loop
            invariant_except_break
                self.wf(),
                spec_run_to_halt(orig, u64::MAX as nat) == spec_run_to_halt(
                    self@,
                    remaining as nat,
                ),
            ensures
                self.wf(),
                self@ == spec_run_to_halt(orig, u64::MAX as nat),
            decreases remaining,
        {
            let step = self.step();
            if step.cpu_step_flags.is_halt() || remaining == 0 {
                break ;
            }
            remaining = remaining - 1;
        }
    }

    /// A builder for consoles with a prepared ROM, memory and register
    /// state.
    pub fn builder() -> (r: ConsoleBuilder)
        ensures
            r.wf(),
            r.console@.cpu == spec_cpu_reset(),
            r.console@.bus.ram == spec_ram_zeroed(),
            r.console@.bus.rom == spec_rom_of(Seq::<u8>::empty()),
            r.console@.bus.cycles == 0,
            r.rom_offset == 0,
    {
        ConsoleBuilder { console: Console::default(), rom_offset: 0 }
    }
}

/// Builds a console with a prepared ROM image, memory contents and register
/// values, mainly for writing guest programs in tests.
#[derive(Debug)]
pub struct ConsoleBuilder {
    pub console: Console,
    pub rom_offset: usize,
}

impl ConsoleBuilder {
    /// The console is well-formed and the ROM cursor is within capacity.
    pub open spec fn wf(&self) -> bool {
        self.console.wf() && self.rom_offset <= 0x8000
    }

    /// Appends one byte to the ROM image at the cursor.
    pub fn rom(self, value: u8) -> (r: Self)
        requires
            self.wf(),
            self.rom_offset < 0x8000,
        ensures
            r.wf(),
            r.rom_offset == self.rom_offset + 1,
            r.console@.cpu == self.console@.cpu,
            r.console@.bus == (BusModel {
                rom: self.console@.bus.rom.update(self.rom_offset as int, value),
                ..self.console@.bus
            }),
    {
        let mut this = self;
        let offset = this.rom_offset;
        this.console.bus.rom.data.set(offset, value);
        this.rom_offset = offset + 1;
        this
    }

    /// Writes a byte through the bus, as a store of the running machine
    /// would.
    pub fn write(self, address: u16, value: u8) -> (r: Self)
        requires
            self.wf(),
        ensures
            r.wf(),
            r.rom_offset == self.rom_offset,
            r.console@.cpu == self.console@.cpu,
            r.console@.bus == crate::console::components::bus::spec_bus_write(
                self.console@.bus,
                address,
                value,
            ),
    {
        let mut this = self;
        this.console.bus.write(
            crate::console::types::address::Address::from_u16(address),
            Byte { val: value },
        );
        this
    }

    /// Sets a byte-wide register view; the `HL` case writes through the
    /// bus.
    pub fn r8(self, r8: crate::console::components::cpu::registers::R8, value: u8) -> (r: Self)
        requires
            self.wf(),
        ensures
            r.wf(),
            r.rom_offset == self.rom_offset,
            (r.console@.cpu.registers, r.console@.bus)
                == crate::console::components::cpu::registers::spec_set_r8(
                self.console@.cpu.registers,
                self.console@.bus,
                r8,
                value,
            ),
            r.console@.cpu.ime == self.console@.cpu.ime,
            r.console@.cpu.ir == self.console@.cpu.ir,
            r.console@.cpu.pc == self.console@.cpu.pc,
            r.console@.cpu.alu == self.console@.cpu.alu,
    {
        let mut this = self;
        this.console.cpu.set_r8(&mut this.console.bus, r8, value);
        this
    }

    /// Sets a word-wide register view.
    pub fn r16(self, r16: crate::console::components::cpu::registers::R16, value: u16) -> (r: Self)
        requires
            self.wf(),
        ensures
            r.wf(),
            r.rom_offset == self.rom_offset,
            r.console@.bus == self.console@.bus,
            r.console@.cpu.registers == crate::console::components::cpu::registers::spec_set_r16(
                self.console@.cpu.registers,
                r16,
                value,
            ),
            r.console@.cpu.ime == self.console@.cpu.ime,
            r.console@.cpu.ir == self.console@.cpu.ir,
            r.console@.cpu.pc == self.console@.cpu.pc,
            r.console@.cpu.alu == self.console@.cpu.alu,
    {
        let mut this = self;
        this.console.cpu.set_r16(r16, value);
        this
    }

    /// Sets the interrupt master enable.
    pub fn ime(self, value: bool) -> (r: Self)
        requires
            self.wf(),
        ensures
            r.wf(),
            r.rom_offset == self.rom_offset,
            r.console@.bus == self.console@.bus,
            r.console@.cpu == (CPU { ime: value, ..self.console@.cpu }),
    {
        let mut this = self;
        this.console.cpu.ime = value;
        this
    }

    /// Sets the program counter.
    pub fn pc(self, value: u16) -> (r: Self)
        requires
            self.wf(),
        ensures
            r.wf(),
            r.rom_offset == self.rom_offset,
            r.console@.bus == self.console@.bus,
            r.console@.cpu == (CPU { pc: Word { val: value }, ..self.console@.cpu }),
    {
        let mut this = self;
        this.console.cpu.pc = Word { val: value };
        this
    }

    pub fn build(self) -> (r: Console)
        ensures
            r@ == self.console@,
            self.console.wf() ==> r.wf(),
    {
        self.console
    }
}


/// Every step costs at least two cycles — the fetch access and the decode
/// tick — as long as the fetch does not happen in SFR space and the
/// accumulator was drained by the previous step.
pub proof fn lemma_step_cycles_at_least_two(c: ConsoleModel)
    requires
        c.bus.cycles == 0,
        !crate::console::components::bus::spec_is_sfr(c.cpu.pc@),
    ensures
        spec_console_step(c).1 >= 2,
{
    reveal(crate::console::components::cpu::spec_cpu_step);
    let (cpu1, bus1) = crate::console::components::cpu::spec_handle_interrupt(c.cpu, c.bus);
    assert(bus1.cycles <= 2);
    assert(!crate::console::components::bus::spec_is_sfr(cpu1.pc@));
    let (opcode, cpu2, bus2) = crate::console::components::cpu::spec_read_byte(cpu1, bus1);
    assert(bus2.cycles == bus1.cycles + 1);
    let bus3 = BusModel {
        cycles: crate::console::components::bus::spec_tick(bus2.cycles),
        ..bus2
    };
    assert(bus3.cycles == bus2.cycles + 1);
    let cpu3 = CPU { ir: Byte { val: opcode }, ..cpu2 };
    crate::console::components::cpu::lemma_execute_cycles_monotone(
        cpu3,
        bus3,
        crate::console::components::cpu::instructions::spec_decode(opcode),
    );
}


/// One step from a drained accumulator costs at least one cycle (the
/// decode tick always fires) and at most eight.
pub proof fn lemma_step_cycles_bounded(c: ConsoleModel)
    requires
        c.bus.cycles == 0,
    ensures
        1 <= spec_console_step(c).1 <= 8,
{
    reveal(crate::console::components::cpu::spec_cpu_step);
    let (cpu1, bus1) = crate::console::components::cpu::spec_handle_interrupt(c.cpu, c.bus);
    assert(bus1.cycles <= 2);
    let (opcode, cpu2, bus2) = crate::console::components::cpu::spec_read_byte(cpu1, bus1);
    assert(bus2.cycles <= 3);
    let bus3 = BusModel {
        cycles: crate::console::components::bus::spec_tick(bus2.cycles),
        ..bus2
    };
    assert(1 <= bus3.cycles <= 4);
    let cpu3 = CPU { ir: Byte { val: opcode }, ..cpu2 };
    let instr = crate::console::components::cpu::instructions::spec_decode(opcode);
    crate::console::components::cpu::lemma_execute_cycles_monotone(cpu3, bus3, instr);
    crate::console::components::cpu::lemma_execute_cycles_upper(cpu3, bus3, instr);
}

} // verus!
