use crate::compiler::lemma_compile_nodes_push;
use crate::compiler::node::spec_node_bytes;
use crate::compiler::node::spec_node_size;
use crate::compiler::node::wf_node_type;
use crate::compiler::node::Node;
use crate::compiler::node::NodeType;
use crate::compiler::spec_compile_nodes;
use crate::compiler::Compiler;
use crate::console::components::cpu::instructions::spec_byte_count;
use crate::console::components::cpu::instructions::spec_encode;
use crate::console::components::cpu::instructions::wf_instruction;
use crate::console::components::cpu::instructions::CPUInstruction;
use vstd::prelude::*;

verus! {

impl Default for Compiler {
    fn default() -> (r: Self)
        ensures
            r.wf(),
            r.nodes@ == Seq::<Node>::empty(),
            r.push_position == 0,
    {
        Compiler { nodes: Vec::new(), push_position: 0 }
    }
}

impl Compiler {
    /// An empty program at address zero.
    pub fn new() -> (r: Self)
        ensures
            r.wf(),
            r.nodes@ == Seq::<Node>::empty(),
            r.push_position == 0,
    {
        Self::default()
    }

    /// Appends one node at the current position; the position advances by
    /// the node's accounted size, wrapping at the address-space width.
    pub fn push_node(self, node_type: NodeType) -> (r: Self)
        requires
            self.wf(),
            wf_node_type(node_type),
        ensures
            r.wf(),
            spec_compile_nodes(r.nodes@, 0) == spec_compile_nodes(self.nodes@, 0)
                + spec_node_bytes(node_type),
            r.push_position == (self.push_position + spec_node_size(node_type)) % 0x10000,
    {
        let mut this = self;
        let ghost nodes_before = this.nodes@;
        let address = this.push_position;
        let size = node_type.size();
        this.push_position = ((this.push_position as u32 + size as u32) % 0x10000) as u16;
        let node = Node::new(node_type, address);
        proof {
            lemma_compile_nodes_push(nodes_before, node);
        }
        this.nodes.push(node);
        this
    }

    /// Appends a raw data run.
    pub fn push_data(self, data: Vec<u8>) -> (r: Self)
        requires
            self.wf(),
            data@.len() <= 0xFFFF,
        ensures
            r.wf(),
            spec_compile_nodes(r.nodes@, 0) == spec_compile_nodes(self.nodes@, 0) + data@,
            r.push_position == (self.push_position + data@.len()) % 0x10000,
    {
        self.push_node(NodeType::Data(data))
    }

    /// Appends one data byte.
    pub fn push_byte(self, byte: u8) -> (r: Self)
        requires
            self.wf(),
        ensures
            r.wf(),
            spec_compile_nodes(r.nodes@, 0) == spec_compile_nodes(self.nodes@, 0) + seq![byte],
            r.push_position == (self.push_position + 1) % 0x10000,
    {
        let data = vec![byte];
        proof {
            assert(data@ =~= seq![byte]);
        }
        self.push_data(data)
    }

    /// Appends one data word, little-endian.
    pub fn push_word(self, word: u16) -> (r: Self)
        requires
            self.wf(),
        ensures
            r.wf(),
            spec_compile_nodes(r.nodes@, 0) == spec_compile_nodes(self.nodes@, 0) + seq![
                (word % 256) as u8,
                (word / 256) as u8,
            ],
            r.push_position == (self.push_position + 2) % 0x10000,
    {
        let data = vec![(word % 256) as u8, (word / 256) as u8];
        proof {
            assert(data@ =~= seq![(word % 256) as u8, (word / 256) as u8]);
        }
        self.push_data(data)
    }

    /// Appends one instruction opcode; the position advances by the
    /// instruction's full encoded length.
    pub fn push_instruction(self, instruction: CPUInstruction) -> (r: Self)
        requires
            self.wf(),
            wf_instruction(instruction),
        ensures
            r.wf(),
            spec_compile_nodes(r.nodes@, 0) == spec_compile_nodes(self.nodes@, 0) + seq![
                spec_encode(instruction),
            ],
            r.push_position == (self.push_position + spec_byte_count(instruction)) % 0x10000,
    {
        self.push_node(NodeType::Instruction(instruction))
    }

    /// Moves the position cursor, e.g. to lay out an interrupt service
    /// routine at its vector.
    pub fn set_push_position(self, position: u16) -> (r: Self)
        ensures
            r == (Compiler { push_position: position, ..self }),
    {
        let mut this = self;
        this.push_position = position;
        this
    }
}

} // verus!
