use crate::console::components::cpu::instructions::spec_byte_count;
use crate::console::components::cpu::instructions::spec_encode;
use crate::console::components::cpu::instructions::wf_instruction;
use crate::console::components::cpu::instructions::CPUInstruction;
use vstd::prelude::*;

verus! {

/// What one compiler node stands for: a debugger marker (no bytes), raw
/// data bytes, or an instruction opcode.
#[derive(Debug)]
pub enum NodeType {
    BreakPoint,
    Data(Vec<u8>),
    Instruction(CPUInstruction),
}

/// A valid node: instructions are valid, and a data run fits the 16-bit
/// address space.
pub open spec fn wf_node_type(node_type: NodeType) -> bool {
    match node_type {
        NodeType::BreakPoint => true,
        NodeType::Data(data) => data@.len() <= 0xFFFF,
        NodeType::Instruction(instr) => wf_instruction(instr),
    }
}

/// The bytes a node emits: nothing for a marker, the data run itself, or
/// the instruction's opcode byte.
pub open spec fn spec_node_bytes(node_type: NodeType) -> Seq<u8> {
    match node_type {
        NodeType::BreakPoint => Seq::empty(),
        NodeType::Data(data) => data@,
        NodeType::Instruction(instr) => seq![spec_encode(instr)],
    }
}

/// The encoded size a node accounts for in address bookkeeping. An
/// instruction accounts for its full length, operand bytes included, even
/// though the operands arrive as separate data nodes.
pub open spec fn spec_node_size(node_type: NodeType) -> u16 {
    match node_type {
        NodeType::BreakPoint => 0,
        NodeType::Data(data) => data@.len() as u16,
        NodeType::Instruction(instr) => spec_byte_count(instr) as u16,
    }
}

impl NodeType {
    pub fn size(&self) -> (r: u16)
        requires
            wf_node_type(*self),
        ensures
            r == spec_node_size(*self),
    {
        match self {
            NodeType::BreakPoint => 0,
            NodeType::Data(data) => data.len() as u16,
            NodeType::Instruction(instr) => instr.byte_count() as u16,
        }
    }
}

/// One compiled node together with the address it was assigned.
#[derive(Debug)]
pub struct Node {
    pub node_type: NodeType,
    pub address: u16,
}

impl Node {
    pub fn new(node_type: NodeType, address: u16) -> (r: Self)
        ensures
            r.address == address,
            spec_node_bytes(r.node_type) == spec_node_bytes(node_type),
            wf_node_type(r.node_type) == wf_node_type(node_type),
    {
        Self { node_type, address }
    }

    /// Appends the node's bytes to the output.
    pub fn compile(&self, data: &mut Vec<u8>)
        requires
            wf_node_type(self.node_type),
        ensures
            final(data)@ == old(data)@ + spec_node_bytes(self.node_type),
    {
        match &self.node_type {
            NodeType::BreakPoint => {
                proof {
                    assert(final(data)@ =~= old(data)@ + spec_node_bytes(self.node_type));
                }
            },
            NodeType::Data(bytes) => {
                let mut i: usize = 0;
                while i < bytes.len()
                    invariant
                        i <= bytes@.len(),
                        data@ == old(data)@ + bytes@.subrange(0, i as int),
                    decreases bytes@.len() - i,
                {
                    data.push(bytes[i]);
                    i = i + 1;
                    proof {
                        assert(data@ =~= old(data)@ + bytes@.subrange(0, i as int));
                    }
                }
                proof {
                    assert(bytes@.subrange(0, bytes@.len() as int) =~= bytes@);
                }
            },
            NodeType::Instruction(instr) => {
                data.push(instr.opcode());
                proof {
                    assert(data@ =~= old(data)@ + spec_node_bytes(self.node_type));
                }
            },
        }
    }
}

} // verus!
