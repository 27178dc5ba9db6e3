use crate::console::components::cpu::registers::R16;
use crate::console::components::cpu::registers::R16S;
use crate::console::components::cpu::registers::R8;
use vstd::prelude::*;

verus! {

/// The instruction set: one variant per opcode family, with the register
/// selector as payload where the family is register-indexed.
#[derive(Debug, Clone, Copy, PartialEq, Eq, Structural)]
pub enum CPUInstruction {
    NoOp,
    Halt,
    /// A ← A + R8(x), wrapping; writes the flags.
    AddR8(R8),
    /// BC ← BC + R16(x), wrapping; writes the flags.
    AddR16(R16),
    /// A ← A − R8(x), wrapping; writes the flags.
    SubR8(R8),
    /// BC ← BC − R16(x), wrapping; writes the flags.
    SubR16(R16),
    /// R8(target) ← R8(source); target ≠ source.
    LoadR8(R8, R8),
    /// R16(target) ← R16(source); target ≠ source.
    LoadR16(R16, R16),
    /// R8(x) ← next byte.
    LoadR8i(R8),
    /// R16(x) ← next word, little-endian.
    LoadR16i(R16),
    IncR8(R8),
    DecR8(R8),
    IncR16(R16),
    DecR16(R16),
    /// Push the stack-pair word, high byte first.
    Push(R16S),
    /// Pop a word into the stack pair; the AF case writes the flag byte.
    Pop(R16S),
    EnableInterrupts,
    DisableInterrupts,
    /// Push the PC past the operand, then jump to the operand word.
    Call,
    /// Pop a word into the PC.
    Return,
}

/// A valid instruction: register-to-register loads never name the same
/// register twice.
pub open spec fn wf_instruction(instr: CPUInstruction) -> bool {
    match instr {
        CPUInstruction::LoadR8(t, s) => t != s,
        CPUInstruction::LoadR16(t, s) => t != s,
        _ => true,
    }
}

/// The byte-wide register selector at an index, in the fixed order
/// A,B,C,D,E,H,L,HL.
pub open spec fn spec_r8_nth(i: int) -> R8 {
    if i == 0 {
        R8::A
    } else if i == 1 {
        R8::B
    } else if i == 2 {
        R8::C
    } else if i == 3 {
        R8::D
    } else if i == 4 {
        R8::E
    } else if i == 5 {
        R8::H
    } else if i == 6 {
        R8::L
    } else {
        R8::HL
    }
}

/// The index of a byte-wide register selector, inverse of `spec_r8_nth`.
pub open spec fn spec_r8_index(r8: R8) -> int {
    match r8 {
        R8::A => 0,
        R8::B => 1,
        R8::C => 2,
        R8::D => 3,
        R8::E => 4,
        R8::H => 5,
        R8::L => 6,
        R8::HL => 7,
    }
}

/// The word-wide register selector at an index, in the fixed order
/// BC,DE,HL,SP.
pub open spec fn spec_r16_nth(i: int) -> R16 {
    if i == 0 {
        R16::BC
    } else if i == 1 {
        R16::DE
    } else if i == 2 {
        R16::HL
    } else {
        R16::SP
    }
}

/// The index of a word-wide register selector, inverse of `spec_r16_nth`.
pub open spec fn spec_r16_index(r16: R16) -> int {
    match r16 {
        R16::BC => 0,
        R16::DE => 1,
        R16::HL => 2,
        R16::SP => 3,
    }
}

/// The stack-pair selector at an index, in the fixed order AF,BC,DE,HL.
pub open spec fn spec_r16s_nth(i: int) -> R16S {
    if i == 0 {
        R16S::AF
    } else if i == 1 {
        R16S::BC
    } else if i == 2 {
        R16S::DE
    } else {
        R16S::HL
    }
}

/// The index of a stack-pair selector, inverse of `spec_r16s_nth`.
pub open spec fn spec_r16s_index(r16s: R16S) -> int {
    match r16s {
        R16S::AF => 0,
        R16S::BC => 1,
        R16S::DE => 2,
        R16S::HL => 3,
    }
}

/// The instruction a byte decodes to. The mapping is injective on valid
/// instructions and every unassigned byte decodes to `NoOp`.
///
/// The register-to-register load block packs the 56 pairs with
/// target ≠ source contiguously: the source index skips over the target.
pub open spec fn spec_decode(opcode: u8) -> CPUInstruction {
    if opcode == 0x00 {
        CPUInstruction::NoOp
    } else if opcode == 0x10 {
        CPUInstruction::Halt
    } else if 0x20 <= opcode <= 0x57 {
        let idx = opcode - 0x20;
        let t = idx / 7;
        let s = idx % 7;
        CPUInstruction::LoadR8(
            spec_r8_nth(t),
            spec_r8_nth(
                if s < t {
                    s
                } else {
                    s + 1
                },
            ),
        )
    } else if 0x58 <= opcode <= 0x63 {
        let idx = opcode - 0x58;
        let t = idx / 3;
        let s = idx % 3;
        CPUInstruction::LoadR16(
            spec_r16_nth(t),
            spec_r16_nth(
                if s < t {
                    s
                } else {
                    s + 1
                },
            ),
        )
    } else if 0x64 <= opcode <= 0x6B {
        CPUInstruction::LoadR8i(spec_r8_nth(opcode - 0x64))
    } else if 0x6C <= opcode <= 0x6F {
        CPUInstruction::LoadR16i(spec_r16_nth(opcode - 0x6C))
    } else if 0x70 <= opcode <= 0x77 {
        CPUInstruction::AddR8(spec_r8_nth(opcode - 0x70))
    } else if 0x78 <= opcode <= 0x7F {
        CPUInstruction::SubR8(spec_r8_nth(opcode - 0x78))
    } else if 0x80 <= opcode <= 0x83 {
        CPUInstruction::Push(spec_r16s_nth(opcode - 0x80))
    } else if 0x84 <= opcode <= 0x87 {
        CPUInstruction::Pop(spec_r16s_nth(opcode - 0x84))
    } else if 0x88 <= opcode <= 0x8B {
        CPUInstruction::AddR16(spec_r16_nth(opcode - 0x88))
    } else if 0x8C <= opcode <= 0x8F {
        CPUInstruction::SubR16(spec_r16_nth(opcode - 0x8C))
    } else if 0x90 <= opcode <= 0x97 {
        CPUInstruction::IncR8(spec_r8_nth(opcode - 0x90))
    } else if 0x98 <= opcode <= 0x9F {
        CPUInstruction::DecR8(spec_r8_nth(opcode - 0x98))
    } else if 0xA0 <= opcode <= 0xA3 {
        CPUInstruction::IncR16(spec_r16_nth(opcode - 0xA0))
    } else if 0xA4 <= opcode <= 0xA7 {
        CPUInstruction::DecR16(spec_r16_nth(opcode - 0xA4))
    } else if opcode == 0xA8 {
        CPUInstruction::EnableInterrupts
    } else if opcode == 0xA9 {
        CPUInstruction::DisableInterrupts
    } else if opcode == 0xAA {
        CPUInstruction::Call
    } else if opcode == 0xAB {
        CPUInstruction::Return
    } else {
        CPUInstruction::NoOp
    }
}

/// The opcode byte of a valid instruction, inverse of `spec_decode`.
pub open spec fn spec_encode(instr: CPUInstruction) -> u8 {
    match instr {
        CPUInstruction::NoOp => 0x00,
        CPUInstruction::Halt => 0x10,
        CPUInstruction::LoadR8(t, s) => {
            let ti = spec_r8_index(t);
            let si = spec_r8_index(s);
            (0x20 + ti * 7 + if si < ti {
                si
            } else {
                si - 1
            }) as u8
        },
        CPUInstruction::LoadR16(t, s) => {
            let ti = spec_r16_index(t);
            let si = spec_r16_index(s);
            (0x58 + ti * 3 + if si < ti {
                si
            } else {
                si - 1
            }) as u8
        },
        CPUInstruction::LoadR8i(x) => (0x64 + spec_r8_index(x)) as u8,
        CPUInstruction::LoadR16i(x) => (0x6C + spec_r16_index(x)) as u8,
        CPUInstruction::AddR8(x) => (0x70 + spec_r8_index(x)) as u8,
        CPUInstruction::SubR8(x) => (0x78 + spec_r8_index(x)) as u8,
        CPUInstruction::Push(x) => (0x80 + spec_r16s_index(x)) as u8,
        CPUInstruction::Pop(x) => (0x84 + spec_r16s_index(x)) as u8,
        CPUInstruction::AddR16(x) => (0x88 + spec_r16_index(x)) as u8,
        CPUInstruction::SubR16(x) => (0x8C + spec_r16_index(x)) as u8,
        CPUInstruction::IncR8(x) => (0x90 + spec_r8_index(x)) as u8,
        CPUInstruction::DecR8(x) => (0x98 + spec_r8_index(x)) as u8,
        CPUInstruction::IncR16(x) => (0xA0 + spec_r16_index(x)) as u8,
        CPUInstruction::DecR16(x) => (0xA4 + spec_r16_index(x)) as u8,
        CPUInstruction::EnableInterrupts => 0xA8,
        CPUInstruction::DisableInterrupts => 0xA9,
        CPUInstruction::Call => 0xAA,
        CPUInstruction::Return => 0xAB,
    }
}

/// The encoded length of an instruction, operands included.
pub open spec fn spec_byte_count(instr: CPUInstruction) -> u8 {
    match instr {
        CPUInstruction::LoadR8i(_) => 2,
        CPUInstruction::LoadR16i(_) => 3,
        CPUInstruction::Call => 3,
        _ => 1,
    }
}

/// Encoding is left-inverse to decoding: every valid instruction survives a
/// trip through its opcode byte. In particular the opcode assignment is
/// injective on valid instructions.
#[verifier::rlimit(60)]
pub proof fn lemma_opcode_round_trip(instr: CPUInstruction)
    requires
        wf_instruction(instr),
    ensures
        spec_decode(spec_encode(instr)) == instr,
{
    match instr {
        CPUInstruction::LoadR8(t, s) => {
            let ti = spec_r8_index(t);
            let si = spec_r8_index(s);
            assert(0 <= ti <= 7 && 0 <= si <= 7 && ti != si);
            let packed = if si < ti {
                si
            } else {
                si - 1
            };
            assert(0 <= packed <= 6);
            assert((ti * 7 + packed) / 7 == ti && (ti * 7 + packed) % 7 == packed) by (
            nonlinear_arith)
                requires
                    0 <= ti <= 7 && 0 <= packed <= 6,
            ;
            assert(spec_r8_nth(ti) == t);
            assert(spec_r8_nth(
                if packed < ti {
                    packed
                } else {
                    packed + 1
                },
            ) == s);
        },
        CPUInstruction::LoadR16(t, s) => {
            let ti = spec_r16_index(t);
            let si = spec_r16_index(s);
            let packed = if si < ti {
                si
            } else {
                si - 1
            };
            assert((ti * 3 + packed) / 3 == ti && (ti * 3 + packed) % 3 == packed) by (
            nonlinear_arith)
                requires
                    0 <= ti <= 3 && 0 <= packed <= 2,
            ;
        },
        _ => {},
    }
}

impl CPUInstruction {
    /// Decodes an opcode byte; unassigned bytes decode to `NoOp`.
    pub fn from_opcode(opcode: u8) -> (r: CPUInstruction)
        ensures
            r == spec_decode(opcode),
    {
        if opcode == 0x00 {
            CPUInstruction::NoOp
        } else if opcode == 0x10 {
            CPUInstruction::Halt
        } else if 0x20 <= opcode && opcode <= 0x57 {
            let idx = opcode - 0x20;
            let t = idx / 7;
            let s = idx % 7;
            CPUInstruction::LoadR8(
                Self::r8_nth(t),
                Self::r8_nth(
                    if s < t {
                        s
                    } else {
                        s + 1
                    },
                ),
            )
        } else if 0x58 <= opcode && opcode <= 0x63 {
            let idx = opcode - 0x58;
            let t = idx / 3;
            let s = idx % 3;
            CPUInstruction::LoadR16(
                Self::r16_nth(t),
                Self::r16_nth(
                    if s < t {
                        s
                    } else {
                        s + 1
                    },
                ),
            )
        } else if 0x64 <= opcode && opcode <= 0x6B {
            CPUInstruction::LoadR8i(Self::r8_nth(opcode - 0x64))
        } else if 0x6C <= opcode && opcode <= 0x6F {
            CPUInstruction::LoadR16i(Self::r16_nth(opcode - 0x6C))
        } else if 0x70 <= opcode && opcode <= 0x77 {
            CPUInstruction::AddR8(Self::r8_nth(opcode - 0x70))
        } else if 0x78 <= opcode && opcode <= 0x7F {
            CPUInstruction::SubR8(Self::r8_nth(opcode - 0x78))
        } else if 0x80 <= opcode && opcode <= 0x83 {
            CPUInstruction::Push(Self::r16s_nth(opcode - 0x80))
        } else if 0x84 <= opcode && opcode <= 0x87 {
            CPUInstruction::Pop(Self::r16s_nth(opcode - 0x84))
        } else if 0x88 <= opcode && opcode <= 0x8B {
            CPUInstruction::AddR16(Self::r16_nth(opcode - 0x88))
        } else if 0x8C <= opcode && opcode <= 0x8F {
            CPUInstruction::SubR16(Self::r16_nth(opcode - 0x8C))
        } else if 0x90 <= opcode && opcode <= 0x97 {
            CPUInstruction::IncR8(Self::r8_nth(opcode - 0x90))
        } else if 0x98 <= opcode && opcode <= 0x9F {
            CPUInstruction::DecR8(Self::r8_nth(opcode - 0x98))
        } else if 0xA0 <= opcode && opcode <= 0xA3 {
            CPUInstruction::IncR16(Self::r16_nth(opcode - 0xA0))
        } else if 0xA4 <= opcode && opcode <= 0xA7 {
            CPUInstruction::DecR16(Self::r16_nth(opcode - 0xA4))
        } else if opcode == 0xA8 {
            CPUInstruction::EnableInterrupts
        } else if opcode == 0xA9 {
            CPUInstruction::DisableInterrupts
        } else if opcode == 0xAA {
            CPUInstruction::Call
        } else if opcode == 0xAB {
            CPUInstruction::Return
        } else {
            CPUInstruction::NoOp
        }
    }

    /// Encodes a valid instruction as its opcode byte.
    #[verifier::rlimit(60)]
    pub fn opcode(&self) -> (r: u8)
        requires
            wf_instruction(*self),
        ensures
            r == spec_encode(*self),
    {
        match *self {
            CPUInstruction::NoOp => 0x00,
            CPUInstruction::Halt => 0x10,
            CPUInstruction::LoadR8(t, s) => {
                let ti = Self::r8_index(t);
                let si = Self::r8_index(s);
                0x20 + ti * 7 + if si < ti {
                    si
                } else {
                    si - 1
                }
            },
            CPUInstruction::LoadR16(t, s) => {
                let ti = Self::r16_index(t);
                let si = Self::r16_index(s);
                0x58 + ti * 3 + if si < ti {
                    si
                } else {
                    si - 1
                }
            },
            CPUInstruction::LoadR8i(x) => 0x64 + Self::r8_index(x),
            CPUInstruction::LoadR16i(x) => 0x6C + Self::r16_index(x),
            CPUInstruction::AddR8(x) => 0x70 + Self::r8_index(x),
            CPUInstruction::SubR8(x) => 0x78 + Self::r8_index(x),
            CPUInstruction::Push(x) => 0x80 + Self::r16s_index(x),
            CPUInstruction::Pop(x) => 0x84 + Self::r16s_index(x),
            CPUInstruction::AddR16(x) => 0x88 + Self::r16_index(x),
            CPUInstruction::SubR16(x) => 0x8C + Self::r16_index(x),
            CPUInstruction::IncR8(x) => 0x90 + Self::r8_index(x),
            CPUInstruction::DecR8(x) => 0x98 + Self::r8_index(x),
            CPUInstruction::IncR16(x) => 0xA0 + Self::r16_index(x),
            CPUInstruction::DecR16(x) => 0xA4 + Self::r16_index(x),
            CPUInstruction::EnableInterrupts => 0xA8,
            CPUInstruction::DisableInterrupts => 0xA9,
            CPUInstruction::Call => 0xAA,
            CPUInstruction::Return => 0xAB,
        }
    }

    /// The encoded length of the instruction, operands included.
    pub fn byte_count(&self) -> (r: u8)
        ensures
            r == spec_byte_count(*self),
    {
        match *self {
            CPUInstruction::LoadR8i(_) => 2,
            CPUInstruction::LoadR16i(_) => 3,
            CPUInstruction::Call => 3,
            _ => 1,
        }
    }

    fn r8_nth(i: u8) -> (r: R8)
        requires
            i <= 7,
        ensures
            r == spec_r8_nth(i as int),
    {
        if i == 0 {
            R8::A
        } else if i == 1 {
            R8::B
        } else if i == 2 {
            R8::C
        } else if i == 3 {
            R8::D
        } else if i == 4 {
            R8::E
        } else if i == 5 {
            R8::H
        } else if i == 6 {
            R8::L
        } else {
            R8::HL
        }
    }

    fn r8_index(r8: R8) -> (r: u8)
        ensures
            r == spec_r8_index(r8),
    {
        match r8 {
            R8::A => 0,
            R8::B => 1,
            R8::C => 2,
            R8::D => 3,
            R8::E => 4,
            R8::H => 5,
            R8::L => 6,
            R8::HL => 7,
        }
    }

    fn r16_nth(i: u8) -> (r: R16)
        requires
            i <= 3,
        ensures
            r == spec_r16_nth(i as int),
    {
        if i == 0 {
            R16::BC
        } else if i == 1 {
            R16::DE
        } else if i == 2 {
            R16::HL
        } else {
            R16::SP
        }
    }

    fn r16_index(r16: R16) -> (r: u8)
        ensures
            r == spec_r16_index(r16),
    {
        match r16 {
            R16::BC => 0,
            R16::DE => 1,
            R16::HL => 2,
            R16::SP => 3,
        }
    }

    fn r16s_nth(i: u8) -> (r: R16S)
        requires
            i <= 3,
        ensures
            r == spec_r16s_nth(i as int),
    {
        if i == 0 {
            R16S::AF
        } else if i == 1 {
            R16S::BC
        } else if i == 2 {
            R16S::DE
        } else {
            R16S::HL
        }
    }

    fn r16s_index(r16s: R16S) -> (r: u8)
        ensures
            r == spec_r16s_index(r16s),
    {
        match r16s {
            R16S::AF => 0,
            R16S::BC => 1,
            R16S::DE => 2,
            R16S::HL => 3,
        }
    }
}

} // verus!
