use crate::compiler::Compiler;
use vstd::prelude::*;

verus! {

/// `b` arises from `a` by `k` applications of `f`, each step standing in
/// `f`'s own postcondition.
pub open spec fn spec_applies_n<F: Fn(Compiler) -> Compiler>(
    f: F,
    a: Compiler,
    b: Compiler,
    k: nat,
) -> bool
    decreases k,
{
    if k == 0 {
        a == b
    } else {
        exists|mid: Compiler|
            #[trigger] f.ensures((a,), mid) && spec_applies_n(f, mid, b, (k - 1) as nat)
    }
}

/// A chain of `k` applications extends at its tail: one more application
/// makes a chain of `k + 1`.
proof fn lemma_applies_n_extend<F: Fn(Compiler) -> Compiler>(
    f: F,
    a: Compiler,
    b: Compiler,
    c: Compiler,
    k: nat,
)
    requires
        spec_applies_n(f, a, b, k),
        f.ensures((b,), c),
    ensures
        spec_applies_n(f, a, c, (k + 1) as nat),
    decreases k,
{
    if k == 0 {
        assert(f.ensures((a,), c));
        assert(spec_applies_n(f, c, c, 0));
    } else {
        let mid = choose|mid: Compiler|
            #[trigger] f.ensures((a,), mid) && spec_applies_n(f, mid, b, (k - 1) as nat);
        lemma_applies_n_extend(f, mid, b, c, (k - 1) as nat);
        assert(spec_applies_n(f, a, c, (k + 1) as nat));
    }
}

impl Compiler {
    /// Repeats a set of builder steps a specified number of times; the
    /// result is exactly `times` applications of `f`, each standing in
    /// `f`'s own contract.
    pub fn repeat<F: Fn(Compiler) -> Compiler>(self, times: usize, f: F) -> (r: Self)
        requires
            forall|c: Compiler| #[trigger] f.requires((c,)),
        ensures
            spec_applies_n(f, self, r, times as nat),
    {
        let mut this = self;
        let mut i: usize = 0;
        proof {
            assert(spec_applies_n(f, self, this, 0));
        }
        while i < times
            invariant
                i <= times,
                spec_applies_n(f, self, this, i as nat),
                forall|c: Compiler| #[trigger] f.requires((c,)),
            decreases times - i,
        {
            let ghost before = this;
            let next = f(this);
            proof {
                lemma_applies_n_extend(f, self, before, next, i as nat);
            }
            this = next;
            i = i + 1;
        }
        this
    }

    /// Moves to a position only for the given builder steps, then restores
    /// the previous position.
    pub fn position_context<F: Fn(Compiler) -> Compiler>(self, position: u16, f: F) -> (r: Self)
        requires
            f.requires((Compiler { push_position: position, ..self },)),
        ensures
            exists|mid: Compiler|
                #[trigger] f.ensures((Compiler { push_position: position, ..self },), mid) && r
                    == (Compiler { push_position: self.push_position, ..mid }),
    {
        let previous_position = self.push_position;
        f(self.set_push_position(position)).set_push_position(previous_position)
    }
}

} // verus!
