use crate::compiler::spec_compile_nodes;
use crate::compiler::Compiler;
use crate::console::components::cpu::instructions::spec_encode;
use crate::console::components::cpu::instructions::CPUInstruction;
use crate::console::components::cpu::registers::R16;
use crate::console::components::cpu::registers::R16S;
use crate::console::components::cpu::registers::R8;
use vstd::prelude::*;

verus! {

impl Compiler {
    /// Will do nothing.
    pub fn no_op(self) -> (r: Self)
        requires
            self.wf(),
        ensures
            r.wf(),
            spec_compile_nodes(r.nodes@, 0) == spec_compile_nodes(self.nodes@, 0) + seq![
                spec_encode(CPUInstruction::NoOp),
            ],
    {
        self.push_instruction(CPUInstruction::NoOp)
    }

    /// Halt.
    pub fn halt(self) -> (r: Self)
        requires
            self.wf(),
        ensures
            r.wf(),
            spec_compile_nodes(r.nodes@, 0) == spec_compile_nodes(self.nodes@, 0) + seq![
                spec_encode(CPUInstruction::Halt),
            ],
    {
        self.push_instruction(CPUInstruction::Halt)
    }

    /// Adds the specified register to the A register (wrapping).
    pub fn add_r8(self, r8: R8) -> (r: Self)
        requires
            self.wf(),
        ensures
            r.wf(),
            spec_compile_nodes(r.nodes@, 0) == spec_compile_nodes(self.nodes@, 0) + seq![
                spec_encode(CPUInstruction::AddR8(r8)),
            ],
    {
        self.push_instruction(CPUInstruction::AddR8(r8))
    }

    /// Adds the specified register to the BC register (wrapping).
    pub fn add_r16(self, r16: R16) -> (r: Self)
        requires
            self.wf(),
        ensures
            r.wf(),
            spec_compile_nodes(r.nodes@, 0) == spec_compile_nodes(self.nodes@, 0) + seq![
                spec_encode(CPUInstruction::AddR16(r16)),
            ],
    {
        self.push_instruction(CPUInstruction::AddR16(r16))
    }

    /// Subtracts the specified register from the A register (wrapping).
    pub fn sub_r8(self, r8: R8) -> (r: Self)
        requires
            self.wf(),
        ensures
            r.wf(),
            spec_compile_nodes(r.nodes@, 0) == spec_compile_nodes(self.nodes@, 0) + seq![
                spec_encode(CPUInstruction::SubR8(r8)),
            ],
    {
        self.push_instruction(CPUInstruction::SubR8(r8))
    }

    /// Subtracts the specified register from the BC register (wrapping).
    pub fn sub_r16(self, r16: R16) -> (r: Self)
        requires
            self.wf(),
        ensures
            r.wf(),
            spec_compile_nodes(r.nodes@, 0) == spec_compile_nodes(self.nodes@, 0) + seq![
                spec_encode(CPUInstruction::SubR16(r16)),
            ],
    {
        self.push_instruction(CPUInstruction::SubR16(r16))
    }

    /// Load the value from the source register into the target register.
    /// Loading a register into itself is not part of the instruction set.
    pub fn load_r8(self, target: R8, source: R8) -> (r: Self)
        requires
            self.wf(),
            target != source,
        ensures
            r.wf(),
            spec_compile_nodes(r.nodes@, 0) == spec_compile_nodes(self.nodes@, 0) + seq![
                spec_encode(CPUInstruction::LoadR8(target, source)),
            ],
    {
        self.push_instruction(CPUInstruction::LoadR8(target, source))
    }

    /// Load the value from the source register into the target register.
    /// Loading a register into itself is not part of the instruction set.
    pub fn load_r16(self, target: R16, source: R16) -> (r: Self)
        requires
            self.wf(),
            target != source,
        ensures
            r.wf(),
            spec_compile_nodes(r.nodes@, 0) == spec_compile_nodes(self.nodes@, 0) + seq![
                spec_encode(CPUInstruction::LoadR16(target, source)),
            ],
    {
        self.push_instruction(CPUInstruction::LoadR16(target, source))
    }

    /// Load an immediate into a specified register.
    pub fn load_r8i(self, r8: R8, immediate: u8) -> (r: Self)
        requires
            self.wf(),
        ensures
            r.wf(),
            spec_compile_nodes(r.nodes@, 0) == spec_compile_nodes(self.nodes@, 0) + seq![
                spec_encode(CPUInstruction::LoadR8i(r8)),
                immediate,
            ],
    {
        let r = self.push_instruction(CPUInstruction::LoadR8i(r8)).push_byte(immediate);
        proof {
            assert(spec_compile_nodes(r.nodes@, 0) =~= spec_compile_nodes(self.nodes@, 0) + seq![
                spec_encode(CPUInstruction::LoadR8i(r8)),
                immediate,
            ]);
        }
        r
    }

    /// Load an immediate into a specified register, little-endian.
    pub fn load_r16i(self, r16: R16, immediate: u16) -> (r: Self)
        requires
            self.wf(),
        ensures
            r.wf(),
            spec_compile_nodes(r.nodes@, 0) == spec_compile_nodes(self.nodes@, 0) + seq![
                spec_encode(CPUInstruction::LoadR16i(r16)),
                (immediate % 256) as u8,
                (immediate / 256) as u8,
            ],
    {
        let r = self.push_instruction(CPUInstruction::LoadR16i(r16)).push_word(immediate);
        proof {
            assert(spec_compile_nodes(r.nodes@, 0) =~= spec_compile_nodes(self.nodes@, 0) + seq![
                spec_encode(CPUInstruction::LoadR16i(r16)),
                (immediate % 256) as u8,
                (immediate / 256) as u8,
            ]);
        }
        r
    }

    /// Increment the specified register.
    pub fn increment_r8(self, r8: R8) -> (r: Self)
        requires
            self.wf(),
        ensures
            r.wf(),
            spec_compile_nodes(r.nodes@, 0) == spec_compile_nodes(self.nodes@, 0) + seq![
                spec_encode(CPUInstruction::IncR8(r8)),
            ],
    {
        self.push_instruction(CPUInstruction::IncR8(r8))
    }

    /// Decrement the specified register.
    pub fn decrement_r8(self, r8: R8) -> (r: Self)
        requires
            self.wf(),
        ensures
            r.wf(),
            spec_compile_nodes(r.nodes@, 0) == spec_compile_nodes(self.nodes@, 0) + seq![
                spec_encode(CPUInstruction::DecR8(r8)),
            ],
    {
        self.push_instruction(CPUInstruction::DecR8(r8))
    }

    /// Increment the specified register.
    pub fn increment_r16(self, r16: R16) -> (r: Self)
        requires
            self.wf(),
        ensures
            r.wf(),
            spec_compile_nodes(r.nodes@, 0) == spec_compile_nodes(self.nodes@, 0) + seq![
                spec_encode(CPUInstruction::IncR16(r16)),
            ],
    {
        self.push_instruction(CPUInstruction::IncR16(r16))
    }

    /// Decrement the specified register.
    pub fn decrement_r16(self, r16: R16) -> (r: Self)
        requires
            self.wf(),
        ensures
            r.wf(),
            spec_compile_nodes(r.nodes@, 0) == spec_compile_nodes(self.nodes@, 0) + seq![
                spec_encode(CPUInstruction::DecR16(r16)),
            ],
    {
        self.push_instruction(CPUInstruction::DecR16(r16))
    }

    /// Push a register pair value onto the stack.
    pub fn stack_push(self, r16s: R16S) -> (r: Self)
        requires
            self.wf(),
        ensures
            r.wf(),
            spec_compile_nodes(r.nodes@, 0) == spec_compile_nodes(self.nodes@, 0) + seq![
                spec_encode(CPUInstruction::Push(r16s)),
            ],
    {
        self.push_instruction(CPUInstruction::Push(r16s))
    }

    /// Pop the value at the top of the stack into the specified register
    /// pair.
    pub fn stack_pop(self, r16s: R16S) -> (r: Self)
        requires
            self.wf(),
        ensures
            r.wf(),
            spec_compile_nodes(r.nodes@, 0) == spec_compile_nodes(self.nodes@, 0) + seq![
                spec_encode(CPUInstruction::Pop(r16s)),
            ],
    {
        self.push_instruction(CPUInstruction::Pop(r16s))
    }

    /// Enable interrupts, usually after critical sections such as interrupt
    /// service routines.
    pub fn enable_interrupts(self) -> (r: Self)
        requires
            self.wf(),
        ensures
            r.wf(),
            spec_compile_nodes(r.nodes@, 0) == spec_compile_nodes(self.nodes@, 0) + seq![
                spec_encode(CPUInstruction::EnableInterrupts),
            ],
    {
        self.push_instruction(CPUInstruction::EnableInterrupts)
    }

    /// Disable interrupts, usually before critical sections.
    pub fn disable_interrupts(self) -> (r: Self)
        requires
            self.wf(),
        ensures
            r.wf(),
            spec_compile_nodes(r.nodes@, 0) == spec_compile_nodes(self.nodes@, 0) + seq![
                spec_encode(CPUInstruction::DisableInterrupts),
            ],
    {
        self.push_instruction(CPUInstruction::DisableInterrupts)
    }

    /// Call a function at the specified address: pushes the PC past the
    /// operand onto the stack and jumps there.
    pub fn call(self, address: u16) -> (r: Self)
        requires
            self.wf(),
        ensures
            r.wf(),
            spec_compile_nodes(r.nodes@, 0) == spec_compile_nodes(self.nodes@, 0) + seq![
                spec_encode(CPUInstruction::Call),
                (address % 256) as u8,
                (address / 256) as u8,
            ],
    {
        let r = self.push_instruction(CPUInstruction::Call).push_word(address);
        proof {
            assert(spec_compile_nodes(r.nodes@, 0) =~= spec_compile_nodes(self.nodes@, 0) + seq![
                spec_encode(CPUInstruction::Call),
                (address % 256) as u8,
                (address / 256) as u8,
            ]);
        }
        r
    }

    /// Return from a previously called function: pops an address from the
    /// stack and jumps there.
    pub fn ret(self) -> (r: Self)
        requires
            self.wf(),
        ensures
            r.wf(),
            spec_compile_nodes(r.nodes@, 0) == spec_compile_nodes(self.nodes@, 0) + seq![
                spec_encode(CPUInstruction::Return),
            ],
    {
        self.push_instruction(CPUInstruction::Return)
    }
}

} // verus!
