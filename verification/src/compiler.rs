use crate::compiler::node::spec_node_bytes;
use crate::compiler::node::wf_node_type;
use crate::compiler::node::Node;
use crate::console::components::cpu::instructions::CPUInstruction;
use vstd::prelude::*;

pub mod layers;
pub mod node;

verus! {

/// The bytes emitted by a run of nodes, in order.
pub open spec fn spec_compile_nodes(nodes: Seq<Node>, i: int) -> Seq<u8>
    decreases nodes.len() - i,
{
    if i < 0 || i >= nodes.len() {
        Seq::empty()
    } else {
        spec_node_bytes(nodes[i].node_type) + spec_compile_nodes(nodes, i + 1)
    }
}

/// A convenience builder that assembles guest programs: nodes are pushed
/// with address bookkeeping and compiled to a flat byte image.
#[derive(Debug)]
pub struct Compiler {
    pub nodes: Vec<Node>,
    pub push_position: u16,
}

impl Compiler {
    /// Every pushed node is valid.
    pub open spec fn wf(&self) -> bool {
        forall|i: int| 0 <= i < self.nodes@.len() ==> wf_node_type(self.nodes@[i].node_type)
    }

    /// Emits the program bytes: every node in order, with a final `Halt`
    /// appended so that a compiled program always terminates the stepper.
    pub fn compile(self) -> (r: Vec<u8>)
        requires
            self.wf(),
        ensures
            r@ == spec_compile_nodes(self.nodes@, 0) + seq![0x10u8],
    {
        let ghost orig = self.nodes@;
        let this = self.push_instruction(CPUInstruction::Halt);
        let ghost nodes = this.nodes@;
        let mut data: Vec<u8> = Vec::new();
        let mut i: usize = 0;
        while i < this.nodes.len()
            invariant
                this.wf(),
                this.nodes@ == nodes,
                i <= nodes.len(),
                spec_compile_nodes(nodes, 0) == data@ + spec_compile_nodes(nodes, i as int),
            decreases nodes.len() - i,
        {
            this.nodes[i].compile(&mut data);
            i = i + 1;
            proof {
                assert(spec_compile_nodes(nodes, 0) =~= data@ + spec_compile_nodes(
                    nodes,
                    i as int,
                ));
            }
        }
        proof {
            assert(spec_compile_nodes(nodes, nodes.len() as int) =~= Seq::<u8>::empty());
            assert(data@ =~= spec_compile_nodes(orig, 0) + seq![0x10u8]);
        }
        data
    }
}

/// Appending a node appends its bytes: compiling `nodes + [n]` yields the
/// bytes of `nodes` followed by the bytes of `n`.
pub proof fn lemma_compile_nodes_push(nodes: Seq<Node>, n: Node)
    ensures
        spec_compile_nodes(nodes.push(n), 0) == spec_compile_nodes(nodes, 0) + spec_node_bytes(
            n.node_type,
        ),
    decreases nodes.len(),
{
    lemma_compile_nodes_push_from(nodes, n, 0);
}

/// Helper for `lemma_compile_nodes_push`, generalised over the start index.
proof fn lemma_compile_nodes_push_from(nodes: Seq<Node>, n: Node, i: int)
    requires
        0 <= i <= nodes.len(),
    ensures
        spec_compile_nodes(nodes.push(n), i) == spec_compile_nodes(nodes, i) + spec_node_bytes(
            n.node_type,
        ),
    decreases nodes.len() - i,
{
    if i == nodes.len() {
        assert(spec_compile_nodes(nodes, i) =~= Seq::<u8>::empty());
        assert(spec_compile_nodes(nodes.push(n), i + 1) =~= Seq::<u8>::empty());
        assert(nodes.push(n)[i] == n);
        assert(spec_compile_nodes(nodes.push(n), i) =~= spec_compile_nodes(nodes, i)
            + spec_node_bytes(n.node_type));
    } else {
        lemma_compile_nodes_push_from(nodes, n, i + 1);
        assert(nodes.push(n)[i] == nodes[i]);
        assert(spec_compile_nodes(nodes.push(n), i) =~= spec_compile_nodes(nodes, i)
            + spec_node_bytes(n.node_type));
    }
}

} // verus!
