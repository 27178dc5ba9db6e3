use crate::compiler::node::NodeType;
use crate::compiler::spec_compile_nodes;
use crate::compiler::Compiler;
use vstd::prelude::*;

verus! {

impl Compiler {
    /// Appends a debugger marker; it emits no bytes and does not move the
    /// position.
    pub fn breakpoint(self) -> (r: Self)
        requires
            self.wf(),
        ensures
            r.wf(),
            spec_compile_nodes(r.nodes@, 0) == spec_compile_nodes(self.nodes@, 0),
            r.push_position == self.push_position,
    {
        let ghost before = self.nodes@;
        let r = self.push_node(NodeType::BreakPoint);
        proof {
            assert(spec_compile_nodes(r.nodes@, 0) =~= spec_compile_nodes(before, 0));
        }
        r
    }
}

} // verus!
