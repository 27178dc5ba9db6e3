use crate::console::components::bus::spec_bus_read;
use crate::console::components::bus::spec_bus_read_val;
use crate::console::components::bus::spec_bus_write;
use crate::console::components::bus::spec_tick;
use crate::console::components::bus::Bus;
use crate::console::components::bus::BusModel;
use crate::console::components::cpu::alu::spec_add_bytes;
use crate::console::components::cpu::alu::spec_add_words;
use crate::console::components::cpu::alu::spec_sub_bytes;
use crate::console::components::cpu::alu::spec_sub_words;
use crate::console::components::cpu::alu::ALU;
use crate::console::components::cpu::alu::ALUFlags;
use crate::console::components::cpu::instructions::spec_decode;
use crate::console::components::cpu::instructions::CPUInstruction;
use crate::console::components::cpu::interrupts::InterruptFlags;
use crate::console::components::cpu::interrupts::IV_INPUT;
use crate::console::components::cpu::interrupts::IV_TIMER;
use crate::console::components::cpu::registers::spec_get_r16;
use crate::console::components::cpu::registers::spec_get_r16s;
use crate::console::components::cpu::registers::spec_get_r8;
use crate::console::components::cpu::registers::spec_registers_reset;
use crate::console::components::cpu::registers::spec_set_r16;
use crate::console::components::cpu::registers::spec_set_r16s;
use crate::console::components::cpu::registers::spec_set_r8;
use crate::console::components::cpu::registers::spec_step_r8;
use crate::console::components::cpu::registers::GeneralRegisters;
use crate::console::components::cpu::registers::R16;
use crate::console::components::cpu::registers::R16S;
use crate::console::components::cpu::registers::R8;
use crate::console::components::cpu::step_flags::CPUStepFlags;
use crate::console::types::address::Address;
use crate::console::types::byte::Byte;
use crate::console::types::word::Word;
use vstd::prelude::*;

pub mod alu;
pub mod instructions;
pub mod interrupts;
pub mod registers;
pub mod step_flags;

verus! {

/// The CPU: register file, interrupt master enable, instruction register,
/// program counter and ALU.
#[derive(Debug, Clone, Copy, PartialEq, Eq, Structural)]
pub struct CPU {
    pub registers: GeneralRegisters,
    /// Interrupt master enable.
    pub ime: bool,
    /// Instruction register: the most recently fetched opcode.
    pub ir: Byte,
    /// Program counter: the next byte to fetch.
    pub pc: Word,
    /// Arithmetic logic unit.
    pub alu: ALU,
}

/// The CPU state installed on reset: everything zeroed, except SP at the
/// default stack top.
pub open spec fn spec_cpu_reset() -> CPU {
    CPU {
        registers: spec_registers_reset(),
        ime: false,
        ir: Byte { val: 0 },
        pc: Word { val: 0 },
        alu: ALU {
            flags: ALUFlags { zero: false, carry: false, negative: false, overflow: false },
        },
    }
}

/// One byte read from the instruction stream: the byte at PC, with PC
/// incremented (wrapping) and the bus access accounted.
pub open spec fn spec_read_byte(cpu: CPU, bus: BusModel) -> (u8, CPU, BusModel) {
    let value = spec_bus_read_val(bus, cpu.pc@);
    (
        value,
        CPU { pc: Word { val: ((cpu.pc@ + 1) % 0x10000) as u16 }, ..cpu },
        spec_bus_read(bus, cpu.pc@),
    )
}

/// One little-endian word read from the instruction stream: two sequential
/// byte reads, low byte first.
pub open spec fn spec_read_word(cpu: CPU, bus: BusModel) -> (u16, CPU, BusModel) {
    let (low, cpu1, bus1) = spec_read_byte(cpu, bus);
    let (high, cpu2, bus2) = spec_read_byte(cpu1, bus1);
    ((high * 256 + low) as u16, cpu2, bus2)
}

/// One byte pushed: a bus write at SP, then SP decremented (wrapping).
pub open spec fn spec_push_byte(cpu: CPU, bus: BusModel, value: u8) -> (CPU, BusModel) {
    let sp = spec_get_r16(cpu.registers, R16::SP);
    let bus1 = spec_bus_write(bus, sp, value);
    (
        CPU {
            registers: spec_set_r16(cpu.registers, R16::SP, ((sp - 1) % 0x10000) as u16),
            ..cpu
        },
        bus1,
    )
}

/// One word pushed: high byte first, so the low byte ends at the lower
/// address.
pub open spec fn spec_push_word(cpu: CPU, bus: BusModel, value: u16) -> (CPU, BusModel) {
    let (cpu1, bus1) = spec_push_byte(cpu, bus, (value / 256) as u8);
    spec_push_byte(cpu1, bus1, (value % 256) as u8)
}

/// One byte popped: SP incremented (wrapping) first, then a bus read at
/// the new SP, mirroring the push order.
pub open spec fn spec_pop_byte(cpu: CPU, bus: BusModel) -> (u8, CPU, BusModel) {
    let sp = ((spec_get_r16(cpu.registers, R16::SP) + 1) % 0x10000) as u16;
    let value = spec_bus_read_val(bus, sp);
    (
        value,
        CPU { registers: spec_set_r16(cpu.registers, R16::SP, sp), ..cpu },
        spec_bus_read(bus, sp),
    )
}

/// One word popped: low byte first, mirroring the push order.
pub open spec fn spec_pop_word(cpu: CPU, bus: BusModel) -> (u16, CPU, BusModel) {
    let (low, cpu1, bus1) = spec_pop_byte(cpu, bus);
    let (high, cpu2, bus2) = spec_pop_byte(cpu1, bus1);
    ((high * 256 + low) as u16, cpu2, bus2)
}

/// The interrupt service phase: when the master enable is set and an
/// enabled line is active, the lowest-index pending line wins; the master
/// enable is cleared, the PC is pushed, and the PC is set to the line's
/// vector.
pub open spec fn spec_handle_interrupt(cpu: CPU, bus: BusModel) -> (CPU, BusModel) {
    let pending = InterruptFlags {
        timer: bus.ie.timer && bus.ia.timer,
        input: bus.ie.input && bus.ia.input,
    };
    if cpu.ime && pending.spec_first_set() is Some {
        let cpu1 = CPU { ime: false, ..cpu };
        let (cpu2, bus2) = spec_push_word(cpu1, bus, cpu1.pc@);
        let vector: u16 = if pending.timer {
            IV_TIMER
        } else {
            IV_INPUT
        };
        (CPU { pc: Word { val: vector }, ..cpu2 }, bus2)
    } else {
        (cpu, bus)
    }
}

/// The execute phase: the effect of one decoded instruction. The third
/// component is the HALT flag, raised only by `Halt`.
pub open spec fn spec_execute(cpu: CPU, bus: BusModel, instr: CPUInstruction) -> (
    CPU,
    BusModel,
    bool,
) {
    match instr {
        CPUInstruction::NoOp => (cpu, bus, false),
        CPUInstruction::Halt => (cpu, bus, true),
        CPUInstruction::AddR8(r8) => {
            let (acc, bus1) = spec_get_r8(cpu.registers, bus, R8::A);
            let (value, bus2) = spec_get_r8(cpu.registers, bus1, r8);
            let (result, flags) = spec_add_bytes(acc, value);
            let (regs, bus3) = spec_set_r8(cpu.registers, bus2, R8::A, result);
            (CPU { registers: regs, alu: ALU { flags }, ..cpu }, bus3, false)
        },
        CPUInstruction::SubR8(r8) => {
            let (acc, bus1) = spec_get_r8(cpu.registers, bus, R8::A);
            let (value, bus2) = spec_get_r8(cpu.registers, bus1, r8);
            let (result, flags) = spec_sub_bytes(acc, value);
            let (regs, bus3) = spec_set_r8(cpu.registers, bus2, R8::A, result);
            (CPU { registers: regs, alu: ALU { flags }, ..cpu }, bus3, false)
        },
        CPUInstruction::AddR16(r16) => {
            let acc = spec_get_r16(cpu.registers, R16::BC);
            let value = spec_get_r16(cpu.registers, r16);
            let (result, flags) = spec_add_words(acc, value);
            let regs = spec_set_r16(cpu.registers, R16::BC, result);
            (CPU { registers: regs, alu: ALU { flags }, ..cpu }, bus, false)
        },
        CPUInstruction::SubR16(r16) => {
            let acc = spec_get_r16(cpu.registers, R16::BC);
            let value = spec_get_r16(cpu.registers, r16);
            let (result, flags) = spec_sub_words(acc, value);
            let regs = spec_set_r16(cpu.registers, R16::BC, result);
            (CPU { registers: regs, alu: ALU { flags }, ..cpu }, bus, false)
        },
        CPUInstruction::LoadR8(target, source) => {
            let (value, bus1) = spec_get_r8(cpu.registers, bus, source);
            let (regs, bus2) = spec_set_r8(cpu.registers, bus1, target, value);
            (CPU { registers: regs, ..cpu }, bus2, false)
        },
        CPUInstruction::LoadR16(target, source) => {
            let value = spec_get_r16(cpu.registers, source);
            (CPU { registers: spec_set_r16(cpu.registers, target, value), ..cpu }, bus, false)
        },
        CPUInstruction::LoadR8i(r8) => {
            let (value, cpu1, bus1) = spec_read_byte(cpu, bus);
            let (regs, bus2) = spec_set_r8(cpu1.registers, bus1, r8, value);
            (CPU { registers: regs, ..cpu1 }, bus2, false)
        },
        CPUInstruction::LoadR16i(r16) => {
            let (value, cpu1, bus1) = spec_read_word(cpu, bus);
            (CPU { registers: spec_set_r16(cpu1.registers, r16, value), ..cpu1 }, bus1, false)
        },
        CPUInstruction::IncR8(r8) => {
            let (regs, bus1) = spec_step_r8(cpu.registers, bus, r8, 1);
            (CPU { registers: regs, ..cpu }, bus1, false)
        },
        CPUInstruction::DecR8(r8) => {
            let (regs, bus1) = spec_step_r8(cpu.registers, bus, r8, -1);
            (CPU { registers: regs, ..cpu }, bus1, false)
        },
        CPUInstruction::IncR16(r16) => {
            let value = spec_get_r16(cpu.registers, r16);
            (
                CPU {
                    registers: spec_set_r16(cpu.registers, r16, ((value + 1) % 0x10000) as u16),
                    ..cpu
                },
                bus,
                false,
            )
        },
        CPUInstruction::DecR16(r16) => {
            let value = spec_get_r16(cpu.registers, r16);
            (
                CPU {
                    registers: spec_set_r16(cpu.registers, r16, ((value - 1) % 0x10000) as u16),
                    ..cpu
                },
                bus,
                false,
            )
        },
        CPUInstruction::Push(r16s) => {
            let value = spec_get_r16s(cpu.registers, r16s, cpu.alu.flags);
            let (cpu1, bus1) = spec_push_word(cpu, bus, value);
            (cpu1, bus1, false)
        },
        CPUInstruction::Pop(r16s) => {
            let (value, cpu1, bus1) = spec_pop_word(cpu, bus);
            let (regs, flags) = spec_set_r16s(cpu1.registers, cpu1.alu.flags, r16s, value);
            (CPU { registers: regs, alu: ALU { flags }, ..cpu1 }, bus1, false)
        },
        CPUInstruction::EnableInterrupts => (CPU { ime: true, ..cpu }, bus, false),
        CPUInstruction::DisableInterrupts => (CPU { ime: false, ..cpu }, bus, false),
        CPUInstruction::Call => {
            let (target, cpu1, bus1) = spec_read_word(cpu, bus);
            let (cpu2, bus2) = spec_push_word(cpu1, bus1, cpu1.pc@);
            (CPU { pc: Word { val: target }, ..cpu2 }, bus2, false)
        },
        CPUInstruction::Return => {
            let (value, cpu1, bus1) = spec_pop_word(cpu, bus);
            (CPU { pc: Word { val: value }, ..cpu1 }, bus1, false)
        },
    }
}

/// One full CPU step: interrupt service, fetch (IR ← byte at PC), decode
/// (one free-standing tick), execute. The third component is the HALT flag.
/// Opaque: callers reason through `reveal` or through the phase lemmas, so
/// that the full machine definition is not unfolded at every call site.
#[verifier::opaque]
pub open spec fn spec_cpu_step(cpu: CPU, bus: BusModel) -> (CPU, BusModel, bool) {
    let (cpu1, bus1) = spec_handle_interrupt(cpu, bus);
    let (opcode, cpu2, bus2) = spec_read_byte(cpu1, bus1);
    let cpu3 = CPU { ir: Byte { val: opcode }, ..cpu2 };
    let bus3 = BusModel { cycles: spec_tick(bus2.cycles), ..bus2 };
    spec_execute(cpu3, bus3, spec_decode(opcode))
}

/// A bus value for stating the effect of instructions that never touch the
/// bus; `spec_execute` passes it through unchanged.
pub open spec fn spec_unused_bus() -> BusModel {
    BusModel {
        rom: Seq::<u8>::empty(),
        ram: Seq::<u8>::empty(),
        ic: crate::console::components::input_controller::InputController {
            touch_input_x: Byte { val: 0 },
            touch_input_y: Byte { val: 0 },
            flags: crate::console::components::input_controller::flags::InputControllerFlags {
                bits: 0,
            },
        },
        ie: InterruptFlags { timer: false, input: false },
        ia: InterruptFlags { timer: false, input: false },
        cycles: 0,
    }
}

impl Default for CPU {
    fn default() -> (r: Self)
        ensures
            r == spec_cpu_reset(),
    {
        CPU {
            registers: GeneralRegisters::default(),
            ime: false,
            ir: Byte { val: 0 },
            pc: Word { val: 0 },
            alu: ALU::default(),
        }
    }
}

impl CPU {
    /// Restores the reset state.
    pub fn reset(&mut self)
        ensures
            *final(self) == spec_cpu_reset(),
    {
        self.registers = GeneralRegisters::default();
        self.ime = false;
        self.ir = Byte { val: 0 };
        self.pc = Word { val: 0 };
        self.alu = ALU::default();
    }

    /// Performs one step: interrupt service, fetch, decode, execute.
    pub fn step(&mut self, bus: &mut Bus) -> (r: CPUStepFlags)
        requires
            old(bus).wf(),
        ensures
            final(bus).wf(),
            (*final(self), final(bus)@, r.halt) == spec_cpu_step(*old(self), old(bus)@),
    {
        proof {
            reveal(spec_cpu_step);
        }
        self.handle_interrupt(bus);
        self.fetch(bus);
        let instruction = self.decode(bus);
        let do_halt = self.execute(bus, instruction);
        CPUStepFlags { halt: do_halt }
    }

    /// The interrupt service phase.
    fn handle_interrupt(&mut self, bus: &mut Bus)
        requires
            old(bus).wf(),
        ensures
            final(bus).wf(),
            (*final(self), final(bus)@) == spec_handle_interrupt(*old(self), old(bus)@),
    {
        if !self.ime {
            return ;
        }
        let interrupt_flags = self.read_ie(bus).intersect(self.read_ia(bus));
        if let Some(interrupt) = interrupt_flags.first_set() {
            self.ime = false;
            let pc = self.pc;
            self.push_word(bus, pc);
            if interrupt.timer {
                self.pc = Word { val: IV_TIMER };
            } else {
                self.pc = Word { val: IV_INPUT };
            }
        }
    }

    /// The fetch phase: IR ← byte at PC, PC incremented.
    fn fetch(&mut self, bus: &mut Bus)
        requires
            old(bus).wf(),
        ensures
            final(bus).wf(),
            ({
                let (value, cpu, post_bus) = spec_read_byte(*old(self), old(bus)@);
                *final(self) == (CPU { ir: Byte { val: value }, ..cpu }) && final(bus)@ == post_bus
            }),
    {
        self.ir = self.read_byte(bus);
    }

    /// The decode phase: one free-standing tick, then the opcode translated
    /// through the instruction table.
    fn decode(&self, bus: &mut Bus) -> (r: CPUInstruction)
        ensures
            final(bus)@ == (BusModel { cycles: spec_tick(old(bus)@.cycles), ..old(bus)@ }),
            final(bus).wf() == old(bus).wf(),
            r == spec_decode(self.ir@),
    {
        bus.tick();
        CPUInstruction::from_opcode(self.ir.value())
    }

    /// The execute phase; returns the HALT flag.
    #[verifier::rlimit(100)]
    fn execute(&mut self, bus: &mut Bus, instruction: CPUInstruction) -> (r: bool)
        requires
            old(bus).wf(),
        ensures
            final(bus).wf(),
            (*final(self), final(bus)@, r) == spec_execute(*old(self), old(bus)@, instruction),
    {
        match instruction {
            CPUInstruction::NoOp => {},
            CPUInstruction::Halt => {
                return true;
            },
            CPUInstruction::AddR8(r8) => self.add_r8(bus, r8),
            CPUInstruction::AddR16(r16) => self.add_r16(r16),
            CPUInstruction::SubR8(r8) => self.sub_r8(bus, r8),
            CPUInstruction::SubR16(r16) => self.sub_r16(r16),
            CPUInstruction::LoadR8(target, source) => self.load_r8(bus, target, source),
            CPUInstruction::LoadR16(target, source) => self.load_r16(target, source),
            CPUInstruction::LoadR8i(r8) => self.load_r8i(bus, r8),
            CPUInstruction::LoadR16i(r16) => self.load_r16i(bus, r16),
            CPUInstruction::IncR8(r8) => self.increment_r8(bus, r8),
            CPUInstruction::DecR8(r8) => self.decrement_r8(bus, r8),
            CPUInstruction::IncR16(r16) => self.increment_r16(r16),
            CPUInstruction::DecR16(r16) => self.decrement_r16(r16),
            CPUInstruction::Push(r16s) => self.push(bus, r16s),
            CPUInstruction::Pop(r16s) => self.pop(bus, r16s),
            CPUInstruction::EnableInterrupts => self.ime = true,
            CPUInstruction::DisableInterrupts => self.ime = false,
            CPUInstruction::Call => self.call(bus),
            CPUInstruction::Return => self.ret(bus),
        }
        false
    }

    /// Reads one byte from the instruction stream and advances the PC.
    fn read_byte(&mut self, bus: &mut Bus) -> (r: Byte)
        requires
            old(bus).wf(),
        ensures
            final(bus).wf(),
            (r@, *final(self), final(bus)@) == spec_read_byte(*old(self), old(bus)@),
    {
        let byte = bus.read(Address::new(self.pc));
        self.pc = self.pc.increment().0;
        byte
    }

    /// Reads one little-endian word from the instruction stream.
    fn read_word(&mut self, bus: &mut Bus) -> (r: Word)
        requires
            old(bus).wf(),
        ensures
            final(bus).wf(),
            (r@, *final(self), final(bus)@) == spec_read_word(*old(self), old(bus)@),
    {
        let low = self.read_byte(bus);
        let high = self.read_byte(bus);
        Word::from_le(low, high)
    }

    /// Writes a byte at SP, then decrements SP.
    fn push_byte(&mut self, bus: &mut Bus, byte: Byte)
        requires
            old(bus).wf(),
        ensures
            final(bus).wf(),
            (*final(self), final(bus)@) == spec_push_byte(*old(self), old(bus)@, byte@),
    {
        bus.write(Address::new(self.registers.get_r16(R16::SP)), byte);
        self.registers.decrement_r16(R16::SP);
    }

    /// Pushes a word, high byte first.
    fn push_word(&mut self, bus: &mut Bus, word: Word)
        requires
            old(bus).wf(),
        ensures
            final(bus).wf(),
            (*final(self), final(bus)@) == spec_push_word(*old(self), old(bus)@, word@),
    {
        self.push_byte(bus, word.high_byte());
        self.push_byte(bus, word.low_byte());
    }

    /// Increments SP, then reads the byte at the new SP.
    fn pop_byte(&mut self, bus: &mut Bus) -> (r: Byte)
        requires
            old(bus).wf(),
        ensures
            final(bus).wf(),
            (r@, *final(self), final(bus)@) == spec_pop_byte(*old(self), old(bus)@),
    {
        self.registers.increment_r16(R16::SP);
        bus.read(Address::new(self.registers.get_r16(R16::SP)))
    }

    /// Pops a word, low byte first.
    fn pop_word(&mut self, bus: &mut Bus) -> (r: Word)
        requires
            old(bus).wf(),
        ensures
            final(bus).wf(),
            (r@, *final(self), final(bus)@) == spec_pop_word(*old(self), old(bus)@),
    {
        let low = self.pop_byte(bus);
        let high = self.pop_byte(bus);
        Word::from_le(low, high)
    }

    /// Reads the interrupt enable register; SFR reads are free.
    fn read_ie(&self, bus: &mut Bus) -> (r: InterruptFlags)
        requires
            old(bus).wf(),
        ensures
            final(bus)@ == old(bus)@,
            final(bus).wf(),
            r == old(bus)@.ie,
    {
        InterruptFlags::from_byte(bus.read(Address::from_u16(Bus::INTERRUPT_ENABLE)))
    }

    /// Reads the interrupt active register; SFR reads are free.
    fn read_ia(&self, bus: &mut Bus) -> (r: InterruptFlags)
        requires
            old(bus).wf(),
        ensures
            final(bus)@ == old(bus)@,
            final(bus).wf(),
            r == old(bus)@.ia,
    {
        InterruptFlags::from_byte(bus.read(Address::from_u16(Bus::INTERRUPT_ACTIVE)))
    }
}

// Instruction handlers.
impl CPU {
    fn add_r8(&mut self, bus: &mut Bus, r8: R8)
        requires
            old(bus).wf(),
        ensures
            final(bus).wf(),
            ({
                let (cpu, post_bus, halt) = spec_execute(
                    *old(self),
                    old(bus)@,
                    CPUInstruction::AddR8(r8),
                );
                *final(self) == cpu && final(bus)@ == post_bus
            }),
    {
        let acc = self.registers.get_r8(bus, R8::ACC);
        let value = self.registers.get_r8(bus, r8);
        let result = self.alu.add_bytes(acc, value);
        self.registers.set_r8(bus, R8::ACC, result)
    }

    fn add_r16(&mut self, r16: R16)
        ensures
            ({
                let (cpu, post_bus, halt) = spec_execute(
                    *old(self),
                    spec_unused_bus(),
                    CPUInstruction::AddR16(r16),
                );
                *final(self) == cpu
            }),
    {
        let acc = self.registers.get_r16(R16::ACC);
        let value = self.registers.get_r16(r16);
        let result = self.alu.add_words(acc, value);
        self.registers.set_r16(R16::ACC, result);
    }

    pub fn sub_r8(&mut self, bus: &mut Bus, r8: R8)
        requires
            old(bus).wf(),
        ensures
            final(bus).wf(),
            ({
                let (cpu, post_bus, halt) = spec_execute(
                    *old(self),
                    old(bus)@,
                    CPUInstruction::SubR8(r8),
                );
                *final(self) == cpu && final(bus)@ == post_bus
            }),
    {
        let acc = self.registers.get_r8(bus, R8::ACC);
        let value = self.registers.get_r8(bus, r8);
        let result = self.alu.sub_bytes(acc, value);
        self.registers.set_r8(bus, R8::ACC, result)
    }

    pub fn sub_r16(&mut self, r16: R16)
        ensures
            ({
                let (cpu, post_bus, halt) = spec_execute(
                    *old(self),
                    spec_unused_bus(),
                    CPUInstruction::SubR16(r16),
                );
                *final(self) == cpu
            }),
    {
        let acc = self.registers.get_r16(R16::ACC);
        let value = self.registers.get_r16(r16);
        let result = self.alu.sub_words(acc, value);
        self.registers.set_r16(R16::ACC, result);
    }

    pub fn load_r8(&mut self, bus: &mut Bus, target: R8, source: R8)
        requires
            old(bus).wf(),
        ensures
            final(bus).wf(),
            ({
                let (cpu, post_bus, halt) = spec_execute(
                    *old(self),
                    old(bus)@,
                    CPUInstruction::LoadR8(target, source),
                );
                *final(self) == cpu && final(bus)@ == post_bus
            }),
    {
        let value = self.registers.get_r8(bus, source);
        self.registers.set_r8(bus, target, value);
    }

    pub fn load_r16(&mut self, target: R16, source: R16)
        ensures
            ({
                let (cpu, post_bus, halt) = spec_execute(
                    *old(self),
                    spec_unused_bus(),
                    CPUInstruction::LoadR16(target, source),
                );
                *final(self) == cpu
            }),
    {
        let value = self.registers.get_r16(source);
        self.registers.set_r16(target, value);
    }

    pub fn load_r8i(&mut self, bus: &mut Bus, r8: R8)
        requires
            old(bus).wf(),
        ensures
            final(bus).wf(),
            ({
                let (cpu, post_bus, halt) = spec_execute(
                    *old(self),
                    old(bus)@,
                    CPUInstruction::LoadR8i(r8),
                );
                *final(self) == cpu && final(bus)@ == post_bus
            }),
    {
        let value = self.read_byte(bus);
        self.registers.set_r8(bus, r8, value);
    }

    pub fn load_r16i(&mut self, bus: &mut Bus, r16: R16)
        requires
            old(bus).wf(),
        ensures
            final(bus).wf(),
            ({
                let (cpu, post_bus, halt) = spec_execute(
                    *old(self),
                    old(bus)@,
                    CPUInstruction::LoadR16i(r16),
                );
                *final(self) == cpu && final(bus)@ == post_bus
            }),
    {
        let value = self.read_word(bus);
        self.registers.set_r16(r16, value);
    }

    pub fn increment_r8(&mut self, bus: &mut Bus, r8: R8)
        requires
            old(bus).wf(),
        ensures
            final(bus).wf(),
            ({
                let (cpu, post_bus, halt) = spec_execute(
                    *old(self),
                    old(bus)@,
                    CPUInstruction::IncR8(r8),
                );
                *final(self) == cpu && final(bus)@ == post_bus
            }),
    {
        self.registers.increment_r8(bus, r8);
    }

    pub fn decrement_r8(&mut self, bus: &mut Bus, r8: R8)
        requires
            old(bus).wf(),
        ensures
            final(bus).wf(),
            ({
                let (cpu, post_bus, halt) = spec_execute(
                    *old(self),
                    old(bus)@,
                    CPUInstruction::DecR8(r8),
                );
                *final(self) == cpu && final(bus)@ == post_bus
            }),
    {
        self.registers.decrement_r8(bus, r8);
    }

    pub fn increment_r16(&mut self, r16: R16)
        ensures
            ({
                let (cpu, post_bus, halt) = spec_execute(
                    *old(self),
                    spec_unused_bus(),
                    CPUInstruction::IncR16(r16),
                );
                *final(self) == cpu
            }),
    {
        self.registers.increment_r16(r16);
    }

    pub fn decrement_r16(&mut self, r16: R16)
        ensures
            ({
                let (cpu, post_bus, halt) = spec_execute(
                    *old(self),
                    spec_unused_bus(),
                    CPUInstruction::DecR16(r16),
                );
                *final(self) == cpu
            }),
    {
        self.registers.decrement_r16(r16);
    }

    pub fn push(&mut self, bus: &mut Bus, r16s: R16S)
        requires
            old(bus).wf(),
        ensures
            final(bus).wf(),
            ({
                let (cpu, post_bus, halt) = spec_execute(
                    *old(self),
                    old(bus)@,
                    CPUInstruction::Push(r16s),
                );
                *final(self) == cpu && final(bus)@ == post_bus
            }),
    {
        let value = self.registers.get_r16s(r16s, self.alu.get_flags());
        self.push_word(bus, value);
    }

    pub fn pop(&mut self, bus: &mut Bus, r16s: R16S)
        requires
            old(bus).wf(),
        ensures
            final(bus).wf(),
            ({
                let (cpu, post_bus, halt) = spec_execute(
                    *old(self),
                    old(bus)@,
                    CPUInstruction::Pop(r16s),
                );
                *final(self) == cpu && final(bus)@ == post_bus
            }),
    {
        let value = self.pop_word(bus);
        self.registers.set_r16s(r16s, &mut self.alu.flags, value);
    }

    fn call(&mut self, bus: &mut Bus)
        requires
            old(bus).wf(),
        ensures
            final(bus).wf(),
            ({
                let (cpu, post_bus, halt) = spec_execute(
                    *old(self),
                    old(bus)@,
                    CPUInstruction::Call,
                );
                *final(self) == cpu && final(bus)@ == post_bus
            }),
    {
        let target = self.read_word(bus);
        let pc = self.pc;
        self.push_word(bus, pc);
        self.pc = target;
    }

    fn ret(&mut self, bus: &mut Bus)
        requires
            old(bus).wf(),
        ensures
            final(bus).wf(),
            ({
                let (cpu, post_bus, halt) = spec_execute(
                    *old(self),
                    old(bus)@,
                    CPUInstruction::Return,
                );
                *final(self) == cpu && final(bus)@ == post_bus
            }),
    {
        let value = self.pop_word(bus);
        self.pc = value;
    }
}

// Outside access.
impl CPU {
    pub fn get_pc(&self) -> (r: Word)
        ensures
            r == self.pc,
    {
        self.pc
    }

    pub fn get_ir(&self) -> (r: Byte)
        ensures
            r == self.ir,
    {
        self.ir
    }

    pub fn get_registers(&self) -> (r: GeneralRegisters)
        ensures
            r == self.registers,
    {
        self.registers
    }

    pub fn get_alu(&self) -> (r: ALU)
        ensures
            r == self.alu,
    {
        self.alu
    }

    /// Writes through a byte-wide register view from a plain value.
    pub fn set_r8(&mut self, bus: &mut Bus, r8: R8, value: u8)
        requires
            old(bus).wf(),
        ensures
            final(bus).wf(),
            (final(self).registers, final(bus)@) == spec_set_r8(
                old(self).registers,
                old(bus)@,
                r8,
                value,
            ),
            final(self).ime == old(self).ime,
            final(self).ir == old(self).ir,
            final(self).pc == old(self).pc,
            final(self).alu == old(self).alu,
    {
        self.registers.set_r8(bus, r8, Byte { val: value });
    }

    /// Writes a word-wide register view from a plain value.
    pub fn set_r16(&mut self, r16: R16, value: u16)
        ensures
            final(self).registers == spec_set_r16(old(self).registers, r16, value),
            final(self).ime == old(self).ime,
            final(self).ir == old(self).ir,
            final(self).pc == old(self).pc,
            final(self).alu == old(self).alu,
    {
        self.registers.set_r16(r16, Word { val: value });
    }
}

// Laws of the instruction semantics.
/// A register-to-register load copies the source value: after
/// `LoadR8(t, s)` with `R8(s) = v`, both `R8(t)` and `R8(s)` read back `v`.
///
/// Where the `HL` view is involved its address must lie in RAM: a store
/// through `HL` into ROM is silently dropped. A load into `H` or `L` with
/// `HL` as the source moves the `HL` window itself, so those two targets
/// are excluded for that source.
pub proof fn lemma_load_r8_copies(cpu: CPU, bus: BusModel, t: R8, s: R8)
    requires
        t != s,
        bus.ram.len() == 0x8000,
        (t == R8::HL || s == R8::HL) ==> 0x8000 <= spec_get_r16(cpu.registers, R16::HL) <= 0xFFFA,
        s == R8::HL ==> t != R8::H && t != R8::L,
    ensures
        ({
            let v = spec_get_r8(cpu.registers, bus, s).0;
            let (cpu2, bus2, halt) = spec_execute(cpu, bus, CPUInstruction::LoadR8(t, s));
            spec_get_r8(cpu2.registers, bus2, t).0 == v && spec_get_r8(cpu2.registers, bus2, s).0
                == v
        }),
{
}

/// A pushed word is popped back unchanged: with SP well inside RAM,
/// `spec_push_word` followed by `spec_pop_word` yields the pushed value and
/// restores the CPU, SP included.
pub proof fn lemma_push_pop_word(cpu: CPU, bus: BusModel, value: u16)
    requires
        bus.ram.len() == 0x8000,
        0x8001 <= spec_get_r16(cpu.registers, R16::SP) <= 0xFFFA,
    ensures
        ({
            let (cpu1, bus1) = spec_push_word(cpu, bus, value);
            let (popped, cpu2, bus2) = spec_pop_word(cpu1, bus1);
            popped == value && cpu2 == cpu
        }),
{
    let regs = cpu.registers;
    let sp = spec_get_r16(regs, R16::SP);
    let hi = (value / 256) as u8;
    let lo = (value % 256) as u8;
    assert(value / 256 * 256 + value % 256 == value);
    let (cpu1, bus1) = spec_push_word(cpu, bus, value);
    assert(spec_get_r16(cpu1.registers, R16::SP) == sp - 2);
    assert(bus1.ram == bus.ram.update(sp - 0x8000, hi).update(sp - 1 - 0x8000, lo));
    assert(bus1.ram[sp - 1 - 0x8000] == lo);
    assert(bus1.ram[sp - 0x8000] == hi);
    let (popped, cpu2, bus2) = spec_pop_word(cpu1, bus1);
    assert(popped == value);
    assert(cpu2.registers == regs);
}

/// Push/Pop round trip: with SP well inside RAM, `Push(p); Pop(p)` restores
/// the whole register file, SP included, and the ALU flags; for `AF` in
/// particular the restored flag byte equals the pushed flag byte.
#[verifier::rlimit(100)]
#[verifier::spinoff_prover]
pub proof fn lemma_push_pop_round_trip(cpu: CPU, bus: BusModel, p: R16S)
    requires
        bus.ram.len() == 0x8000,
        0x8001 <= spec_get_r16(cpu.registers, R16::SP) <= 0xFFFA,
    ensures
        ({
            let (cpu1, bus1, h1) = spec_execute(cpu, bus, CPUInstruction::Push(p));
            let (cpu2, bus2, h2) = spec_execute(cpu1, bus1, CPUInstruction::Pop(p));
            cpu2.registers == cpu.registers && cpu2.alu == cpu.alu
        }),
{
    let regs = cpu.registers;
    let value = spec_get_r16s(regs, p, cpu.alu.flags);
    lemma_push_pop_word(cpu, bus, value);
    let (cpu1, bus1, h1) = spec_execute(cpu, bus, CPUInstruction::Push(p));
    let (popped, cpux, busx) = spec_pop_word(cpu1, bus1);
    assert(popped == value && cpux == cpu);
    let (cpu2, bus2, h2) = spec_execute(cpu1, bus1, CPUInstruction::Pop(p));
    assert(value / 256 * 256 + value % 256 == value);
    match p {
        R16S::AF => {
            assert(value / 256 == regs.a@ && value % 256 == cpu.alu.flags.spec_bits());
            assert(ALUFlags::spec_from_bits(cpu.alu.flags.spec_bits()) == cpu.alu.flags);
            assert(cpu2.registers == cpu.registers);
        },
        R16S::BC => {
            assert(value / 256 == regs.b@ && value % 256 == regs.c@);
            assert(cpu2.registers == cpu.registers);
        },
        R16S::DE => {
            assert(value / 256 == regs.d@ && value % 256 == regs.e@);
            assert(cpu2.registers == cpu.registers);
        },
        R16S::HL => {
            assert(value / 256 == regs.h@ && value % 256 == regs.l@);
            assert(cpu2.registers == cpu.registers);
        },
    }
}


/// Cycle accounting during execution only moves forward: no instruction
/// ever lowers the cycle accumulator (far from the counter wrap, which a
/// drained per-step accumulator never approaches).
#[verifier::rlimit(100)]
#[verifier::spinoff_prover]
pub proof fn lemma_execute_cycles_monotone(cpu: CPU, bus: BusModel, instr: CPUInstruction)
    requires
        bus.cycles <= 0xFFFF_FFFF,
    ensures
        spec_execute(cpu, bus, instr).1.cycles >= bus.cycles,
{
    match instr {
        CPUInstruction::NoOp => {},
        CPUInstruction::Halt => {},
        CPUInstruction::AddR8(r8) => {},
        CPUInstruction::SubR8(r8) => {},
        CPUInstruction::AddR16(r16) => {},
        CPUInstruction::SubR16(r16) => {},
        CPUInstruction::LoadR8(t, s) => {},
        CPUInstruction::LoadR16(t, s) => {},
        CPUInstruction::LoadR8i(r8) => {},
        CPUInstruction::LoadR16i(r16) => {},
        CPUInstruction::IncR8(r8) => {},
        CPUInstruction::DecR8(r8) => {},
        CPUInstruction::IncR16(r16) => {},
        CPUInstruction::DecR16(r16) => {},
        CPUInstruction::Push(p) => {},
        CPUInstruction::Pop(p) => {},
        CPUInstruction::EnableInterrupts => {},
        CPUInstruction::DisableInterrupts => {},
        CPUInstruction::Call => {},
        CPUInstruction::Return => {},
    }
}


/// Cycle accounting during execution is bounded: no instruction accounts
/// more than four accesses (two operand reads and two stack writes at
/// most).
#[verifier::rlimit(100)]
#[verifier::spinoff_prover]
pub proof fn lemma_execute_cycles_upper(cpu: CPU, bus: BusModel, instr: CPUInstruction)
    requires
        bus.cycles <= 0xFFFF,
    ensures
        spec_execute(cpu, bus, instr).1.cycles <= bus.cycles + 4,
{
    match instr {
        CPUInstruction::NoOp => {},
        CPUInstruction::Halt => {},
        CPUInstruction::AddR8(r8) => {},
        CPUInstruction::SubR8(r8) => {},
        CPUInstruction::AddR16(r16) => {},
        CPUInstruction::SubR16(r16) => {},
        CPUInstruction::LoadR8(t, s) => {},
        CPUInstruction::LoadR16(t, s) => {},
        CPUInstruction::LoadR8i(r8) => {},
        CPUInstruction::LoadR16i(r16) => {},
        CPUInstruction::IncR8(r8) => {},
        CPUInstruction::DecR8(r8) => {},
        CPUInstruction::IncR16(r16) => {},
        CPUInstruction::DecR16(r16) => {},
        CPUInstruction::Push(p) => {},
        CPUInstruction::Pop(p) => {},
        CPUInstruction::EnableInterrupts => {},
        CPUInstruction::DisableInterrupts => {},
        CPUInstruction::Call => {},
        CPUInstruction::Return => {},
    }
}

} // verus!
