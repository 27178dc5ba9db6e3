use crate::console::types::address::Address;
use crate::console::Console;
use crate::debugger::event::DebuggerEvent;
use vstd::prelude::*;

pub mod event;

verus! {

/// A breakpoint set and a per-step inspection hook.
#[derive(Debug, Clone)]
pub struct Debugger {
    pub breakpoints: Vec<Address>,
}

/// Whether an address is among the breakpoints.
pub open spec fn spec_has_breakpoint(breakpoints: Seq<Address>, addr: u16) -> bool {
    exists|i: int| 0 <= i < breakpoints.len() && breakpoints[i]@ == addr
}

impl Debugger {
    /// The breakpoint list holds no duplicates.
    pub open spec fn wf(&self) -> bool {
        forall|i: int, j: int|
            0 <= i < j < self.breakpoints@.len() ==> self.breakpoints@[i]@
                != self.breakpoints@[j]@
    }

    pub fn new() -> (r: Self)
        ensures
            r.wf(),
            r.breakpoints@.len() == 0,
    {
        Debugger { breakpoints: Vec::new() }
    }

    /// Whether a breakpoint is set at the address.
    pub fn contains(&self, address: Address) -> (r: bool)
        ensures
            r == spec_has_breakpoint(self.breakpoints@, address@),
    {
        let mut i: usize = 0;
        while i < self.breakpoints.len()
            invariant
                i <= self.breakpoints@.len(),
                forall|j: int| 0 <= j < i ==> self.breakpoints@[j]@ != address@,
            decreases self.breakpoints@.len() - i,
        {
            if self.breakpoints[i].value().value() == address.value().value() {
                return true;
            }
            i = i + 1;
        }
        false
    }

    /// Emits the events the current console state gives rise to: a
    /// `Breakpoint` when the PC sits on one.
    pub fn inspect(&self, console: &Console) -> (r: Vec<DebuggerEvent>)
        ensures
            spec_has_breakpoint(self.breakpoints@, console@.cpu.pc@) ==> r@ == seq![
                DebuggerEvent::Breakpoint,
            ],
            !spec_has_breakpoint(self.breakpoints@, console@.cpu.pc@) ==> r@ == Seq::<
                DebuggerEvent,
            >::empty(),
    {
        let mut events: Vec<DebuggerEvent> = Vec::new();
        let pc = Address::new(console.cpu.get_pc());
        if self.contains(pc) {
            events.push(DebuggerEvent::Breakpoint);
            proof {
                assert(events@ =~= seq![DebuggerEvent::Breakpoint]);
            }
        }
        events
    }

    pub fn get_breakpoints(&self) -> (r: &Vec<Address>)
        ensures
            r@ == self.breakpoints@,
    {
        &self.breakpoints
    }

    /// Adds a breakpoint; setting one twice has no further effect.
    pub fn set_breakpoint(&mut self, address: Address)
        requires
            old(self).wf(),
        ensures
            final(self).wf(),
            spec_has_breakpoint(final(self).breakpoints@, address@),
            forall|a: u16|
                a != address@ ==> spec_has_breakpoint(final(self).breakpoints@, a)
                    == spec_has_breakpoint(old(self).breakpoints@, a),
    {
        if !self.contains(address) {
            self.breakpoints.push(address);
            proof {
                assert(self.breakpoints@[self.breakpoints@.len() - 1]@ == address@);
                assert forall|a: u16| a != address@ implies spec_has_breakpoint(
                    self.breakpoints@,
                    a,
                ) == spec_has_breakpoint(old(self).breakpoints@, a) by {
                    let bps = self.breakpoints@;
                    let obps = old(self).breakpoints@;
                    if spec_has_breakpoint(bps, a) {
                        let i = choose|i: int| 0 <= i < bps.len() && bps[i]@ == a;
                        assert(i < obps.len() && obps[i]@ == a);
                    }
                    if spec_has_breakpoint(obps, a) {
                        let i = choose|i: int| 0 <= i < obps.len() && obps[i]@ == a;
                        assert(bps[i]@ == a);
                    }
                }
            }
        }
    }

    /// Removes a breakpoint; removing an absent one has no effect.
    pub fn remove_breakpoint(&mut self, address: Address)
        requires
            old(self).wf(),
        ensures
            final(self).wf(),
            !spec_has_breakpoint(final(self).breakpoints@, address@),
            forall|a: u16|
                a != address@ ==> spec_has_breakpoint(final(self).breakpoints@, a)
                    == spec_has_breakpoint(old(self).breakpoints@, a),
    {
        let mut i: usize = 0;
        while i < self.breakpoints.len()
            invariant
                old(self).wf(),
                self.wf(),
                i <= self.breakpoints@.len(),
                self.breakpoints@ == old(self).breakpoints@,
                forall|j: int| 0 <= j < i ==> self.breakpoints@[j]@ != address@,
            decreases self.breakpoints@.len() - i,
        {
            if self.breakpoints[i].value().value() == address.value().value() {
                let ghost before = self.breakpoints@;
                self.breakpoints.remove(i);
                proof {
                    assert(self.breakpoints@ =~= before.subrange(0, i as int) + before.subrange(
                        i as int + 1,
                        before.len() as int,
                    ));
                    assert forall|a: u16|
                        a != address@ implies spec_has_breakpoint(self.breakpoints@, a)
                        == spec_has_breakpoint(old(self).breakpoints@, a) by {
                        let bps = self.breakpoints@;
                        let obps = old(self).breakpoints@;
                        if spec_has_breakpoint(bps, a) {
                            let k = choose|k: int| 0 <= k < bps.len() && bps[k]@ == a;
                            if k < i {
                                assert(obps[k]@ == a);
                            } else {
                                assert(obps[k + 1]@ == a);
                            }
                        }
                        if spec_has_breakpoint(obps, a) {
                            let k = choose|k: int| 0 <= k < obps.len() && obps[k]@ == a;
                            if k < i {
                                assert(bps[k]@ == a);
                            } else {
                                assert(k != i);
                                assert(bps[k - 1]@ == a);
                            }
                        }
                    }
                    assert forall|k: int|
                        0 <= k < self.breakpoints@.len() implies self.breakpoints@[k]@
                        != address@ by {
                        let obps = old(self).breakpoints@;
                        if k < i {
                            assert(self.breakpoints@[k]@ == obps[k]@);
                        } else {
                            assert(self.breakpoints@[k]@ == obps[k + 1]@);
                        }
                    }
                }
                return ;
            }
            i = i + 1;
        }
    }
}

impl Default for Debugger {
    fn default() -> (r: Self)
        ensures
            r.wf(),
            r.breakpoints@.len() == 0,
    {
        Debugger::new()
    }
}

} // verus!
