use crate::console::components::cpu::instructions::spec_byte_count;
use crate::console::components::cpu::instructions::spec_decode;
use crate::console::components::cpu::instructions::CPUInstruction;
use crate::disassembler::node::Node;
use vstd::prelude::*;

pub mod node;

verus! {

/// The disassembly of a byte stream from an offset: at each position the
/// byte decodes to an instruction node, followed by one byte node per
/// trailing operand byte, as far as the stream reaches.
pub open spec fn spec_disassemble(binary: Seq<u8>, offset: int) -> Seq<Node>
    decreases binary.len() - offset,
{
    if offset < 0 || offset >= binary.len() {
        Seq::empty()
    } else {
        let instr = spec_decode(binary[offset]);
        let trailing = spec_byte_count(instr) - 1;
        let avail = binary.len() - offset - 1;
        let take = if trailing <= avail {
            trailing as int
        } else {
            avail
        };
        seq![Node::Instruction(instr)] + Seq::new(
            take as nat,
            |i: int| Node::Byte(binary[offset + 1 + i]),
        ) + spec_disassemble(binary, offset + 1 + take)
    }
}

/// A finished disassembly: nodes mirroring the byte offsets of the input.
#[derive(Debug)]
pub struct DisassembledBinary {
    nodes: Vec<Node>,
}

impl View for DisassembledBinary {
    type V = Seq<Node>;

    closed spec fn view(&self) -> Seq<Node> {
        self.nodes@
    }
}

impl Default for DisassembledBinary {
    fn default() -> (r: Self)
        ensures
            r@ == Seq::<Node>::empty(),
    {
        DisassembledBinary { nodes: Vec::new() }
    }
}

impl DisassembledBinary {
    pub fn nodes(&self) -> (r: &Vec<Node>)
        ensures
            r@ == self@,
    {
        &self.nodes
    }
}

/// A linear walk of a byte slice that decodes each opcode and skips its
/// operand bytes.
pub struct Disassembler<'a> {
    pub binary: &'a [u8],
    pub offset: usize,
    pub nodes: Vec<Node>,
}

impl<'a> Disassembler<'a> {
    pub fn new(binary: &'a [u8]) -> (r: Self)
        ensures
            r.binary@ == binary@,
            r.offset == 0,
            r.nodes@ == Seq::<Node>::empty(),
    {
        Self { binary, offset: 0, nodes: Vec::new() }
    }

    fn has_data(&self) -> (r: bool)
        ensures
            r == (self.offset < self.binary@.len()),
    {
        self.offset < self.binary.len()
    }

    /// Disassembles the whole stream. A truncated trailing operand is
    /// emitted as far as the bytes reach.
    pub fn disassemble(self) -> (r: DisassembledBinary)
        requires
            self.offset == 0,
            self.nodes@ == Seq::<Node>::empty(),
        ensures
            r@ == spec_disassemble(self.binary@, 0),
    {
        let mut this = self;
        let ghost bin = this.binary@;
        while this.has_data()
            invariant
                this.binary@ == bin,
                this.offset <= bin.len(),
                spec_disassemble(bin, 0) == this.nodes@ + spec_disassemble(
                    bin,
                    this.offset as int,
                ),
            decreases bin.len() - this.offset,
        {
            let ghost start = this.offset as int;
            let ghost nodes_before = this.nodes@;
            let value = this.read();
            let instruction = CPUInstruction::from_opcode(value);
            this.push_instruction(instruction);
            let seek_count = instruction.byte_count() - 1;
            let mut taken: u8 = 0;
            while taken < seek_count && this.has_data()
                invariant
                    this.binary@ == bin,
                    taken <= seek_count <= 2,
                    start + 1 + taken == this.offset <= bin.len(),
                    taken < seek_count ==> this.offset <= bin.len(),
                    this.nodes@ == nodes_before + seq![Node::Instruction(instruction)] + Seq::new(
                        taken as nat,
                        |i: int| Node::Byte(bin[start + 1 + i]),
                    ),
                decreases seek_count - taken,
            {
                this.push_read();
                taken = taken + 1;
                proof {
                    assert(this.nodes@ =~= nodes_before + seq![Node::Instruction(instruction)]
                        + Seq::new(taken as nat, |i: int| Node::Byte(bin[start + 1 + i])));
                }
            }
            proof {
                let trailing = spec_byte_count(instruction) - 1;
                let avail = bin.len() - start - 1;
                let take = if trailing <= avail {
                    trailing as int
                } else {
                    avail
                };
                assert(taken == take);
                assert(spec_disassemble(bin, start) == seq![Node::Instruction(instruction)]
                    + Seq::new(take as nat, |i: int| Node::Byte(bin[start + 1 + i]))
                    + spec_disassemble(bin, start + 1 + take));
                assert(spec_disassemble(bin, 0) =~= this.nodes@ + spec_disassemble(
                    bin,
                    this.offset as int,
                ));
            }
        }
        DisassembledBinary { nodes: this.nodes }
    }

    fn read(&mut self) -> (r: u8)
        requires
            old(self).offset < old(self).binary@.len(),
        ensures
            r == old(self).binary@[old(self).offset as int],
            final(self).offset == old(self).offset + 1,
            final(self).binary@ == old(self).binary@,
            final(self).nodes@ == old(self).nodes@,
    {
        let value = self.binary[self.offset];
        self.offset = self.offset + 1;
        value
    }

    fn push_read(&mut self)
        requires
            old(self).offset < old(self).binary@.len(),
        ensures
            final(self).offset == old(self).offset + 1,
            final(self).binary@ == old(self).binary@,
            final(self).nodes@ == old(self).nodes@.push(
                Node::Byte(old(self).binary@[old(self).offset as int]),
            ),
    {
        let value = self.read();
        self.push_byte(value);
    }

    fn push_byte(&mut self, byte: u8)
        ensures
            final(self).offset == old(self).offset,
            final(self).binary@ == old(self).binary@,
            final(self).nodes@ == old(self).nodes@.push(Node::Byte(byte)),
    {
        self.nodes.push(Node::byte(byte));
    }

    fn push_instruction(&mut self, instruction: CPUInstruction)
        ensures
            final(self).offset == old(self).offset,
            final(self).binary@ == old(self).binary@,
            final(self).nodes@ == old(self).nodes@.push(Node::Instruction(instruction)),
    {
        self.nodes.push(Node::instruction(instruction));
    }
}

} // verus!
