use lmvc8_core::compiler::Compiler;
use lmvc8_core::console::components::cpu::instructions::CPUInstruction;
use lmvc8_core::console::components::cpu::registers::R16;
use lmvc8_core::console::components::cpu::registers::R16S;
use lmvc8_core::console::components::cpu::registers::R8;
use lmvc8_core::disassembler::Disassembler;

#[test]
fn opcode_anchors() {
    assert_eq!(CPUInstruction::Halt.opcode(), 0x10);
    assert_eq!(CPUInstruction::LoadR8(R8::A, R8::B).opcode(), 0x20);
    assert_eq!(CPUInstruction::LoadR8(R8::A, R8::HL).opcode(), 0x26);
    assert_eq!(CPUInstruction::LoadR8(R8::B, R8::A).opcode(), 0x27);
    assert_eq!(CPUInstruction::LoadR8(R8::H, R8::HL).opcode(), 0x49);
    assert_eq!(CPUInstruction::LoadR8(R8::HL, R8::L).opcode(), 0x57);
    assert_eq!(CPUInstruction::Push(R16S::AF).opcode(), 0x80);
    assert_eq!(CPUInstruction::Push(R16S::HL).opcode(), 0x83);
    assert_eq!(CPUInstruction::Pop(R16S::AF).opcode(), 0x84);
    assert_eq!(CPUInstruction::Pop(R16S::HL).opcode(), 0x87);
    assert_eq!(CPUInstruction::NoOp.opcode(), 0x00);
}

#[test]
fn opcode_round_trip_all_valid_instructions() {
    let r8s = [R8::A, R8::B, R8::C, R8::D, R8::E, R8::H, R8::L, R8::HL];
    let r16s = [R16::BC, R16::DE, R16::HL, R16::SP];
    let pairs = [R16S::AF, R16S::BC, R16S::DE, R16S::HL];
    let mut instructions = vec![
        CPUInstruction::NoOp,
        CPUInstruction::Halt,
        CPUInstruction::EnableInterrupts,
        CPUInstruction::DisableInterrupts,
        CPUInstruction::Call,
        CPUInstruction::Return,
    ];
    for &t in r8s.iter() {
        instructions.push(CPUInstruction::AddR8(t));
        instructions.push(CPUInstruction::SubR8(t));
        instructions.push(CPUInstruction::LoadR8i(t));
        instructions.push(CPUInstruction::IncR8(t));
        instructions.push(CPUInstruction::DecR8(t));
        for &s in r8s.iter() {
            if t != s {
                instructions.push(CPUInstruction::LoadR8(t, s));
            }
        }
    }
    for &t in r16s.iter() {
        instructions.push(CPUInstruction::AddR16(t));
        instructions.push(CPUInstruction::SubR16(t));
        instructions.push(CPUInstruction::LoadR16i(t));
        instructions.push(CPUInstruction::IncR16(t));
        instructions.push(CPUInstruction::DecR16(t));
        for &s in r16s.iter() {
            if t != s {
                instructions.push(CPUInstruction::LoadR16(t, s));
            }
        }
    }
    for &p in pairs.iter() {
        instructions.push(CPUInstruction::Push(p));
        instructions.push(CPUInstruction::Pop(p));
    }
    let mut seen = vec![false; 256];
    for &instr in instructions.iter() {
        let op = instr.opcode();
        assert_eq!(CPUInstruction::from_opcode(op), instr);
        assert!(!seen[op as usize], "opcode {:#04x} assigned twice", op);
        seen[op as usize] = true;
    }
}

#[test]
fn unknown_opcodes_decode_to_no_op() {
    assert_eq!(CPUInstruction::from_opcode(0x01), CPUInstruction::NoOp);
    assert_eq!(CPUInstruction::from_opcode(0xAC), CPUInstruction::NoOp);
    assert_eq!(CPUInstruction::from_opcode(0xFF), CPUInstruction::NoOp);
}

#[test]
fn byte_counts() {
    assert_eq!(CPUInstruction::NoOp.byte_count(), 1);
    assert_eq!(CPUInstruction::Halt.byte_count(), 1);
    assert_eq!(CPUInstruction::LoadR8i(R8::A).byte_count(), 2);
    assert_eq!(CPUInstruction::LoadR16i(R16::BC).byte_count(), 3);
    assert_eq!(CPUInstruction::Call.byte_count(), 3);
    assert_eq!(CPUInstruction::Return.byte_count(), 1);
    assert_eq!(CPUInstruction::Push(R16S::AF).byte_count(), 1);
}

#[test]
fn compiler_emits_program_bytes() {
    let binary = Compiler::new().load_r8i(R8::A, 12).compile();
    assert_eq!(binary, vec![0x64, 12, 0x10]);
    let binary = Compiler::new()
        .load_r16i(R16::BC, 0x1234)
        .stack_push(R16S::BC)
        .compile();
    assert_eq!(binary, vec![0x6C, 0x34, 0x12, 0x81, 0x10]);
}

#[test]
fn compiler_call_emits_little_endian_address() {
    let binary = Compiler::new().call(0x0200).ret().compile();
    assert_eq!(binary, vec![0xAA, 0x00, 0x02, 0xAB, 0x10]);
}

#[test]
fn compiler_data_and_position() {
    let binary = Compiler::new()
        .push_data(vec![1, 2, 3])
        .push_byte(9)
        .push_word(0xBEEF)
        .compile();
    assert_eq!(binary, vec![1, 2, 3, 9, 0xEF, 0xBE, 0x10]);
    let c = Compiler::new().set_push_position(0x40).no_op();
    assert_eq!(c.push_position, 0x41);
}

#[test]
fn compiler_breakpoint_emits_nothing() {
    let binary = Compiler::new().breakpoint().no_op().compile();
    assert_eq!(binary, vec![0x00, 0x10]);
}

#[test]
fn compiler_repeat_applies_steps() {
    let binary = Compiler::new().repeat(3, |c| c.no_op()).compile();
    assert_eq!(binary, vec![0x00, 0x00, 0x00, 0x10]);
}

#[test]
fn compiler_position_context_restores_position() {
    let c = Compiler::new()
        .set_push_position(0x10)
        .position_context(0x40, |c| c.no_op());
    assert_eq!(c.push_position, 0x10);
    assert_eq!(c.compile(), vec![0x00, 0x10]);
}

#[test]
fn disassembles_program_with_operands() {
    let binary = [0x64u8, 12, 0x10];
    let result = Disassembler::new(&binary).disassemble();
    let nodes = result.nodes();
    assert_eq!(nodes.len(), 3);
    assert!(nodes[0].is_instruction());
    assert!(nodes[1].is_byte());
    assert!(nodes[2].is_instruction());
}

#[test]
fn disassembles_truncated_operand_without_panic() {
    let binary = [0x6Cu8];
    let result = Disassembler::new(&binary).disassemble();
    let nodes = result.nodes();
    assert_eq!(nodes.len(), 1);
    assert!(nodes[0].is_instruction());
}

#[test]
fn disassembles_call_with_two_operand_bytes() {
    let binary = [0xAAu8, 0x00, 0x02, 0x10];
    let result = Disassembler::new(&binary).disassemble();
    let nodes = result.nodes();
    assert_eq!(nodes.len(), 4);
    assert!(nodes[0].is_instruction());
    assert!(nodes[1].is_byte());
    assert!(nodes[2].is_byte());
    assert!(nodes[3].is_instruction());
}
