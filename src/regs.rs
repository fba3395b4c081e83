//! The register file: 32 signed 32-bit registers, register 0 hardwired to zero.
use vstd::prelude::*;

verus! {

/// The number of general-purpose registers.
pub const NUM_REGS: usize = 32;

/// The registers after writing `v` to register `i`: a write to register 0 is discarded.
pub open spec fn written(regs: Seq<i32>, i: int, v: i32) -> Seq<i32> {
    if i == 0 {
        regs
    } else {
        regs.update(i, v)
    }
}

/// The registers after a sequence of (index, value) writes, in order.
pub open spec fn written_all(regs: Seq<i32>, writes: Seq<(usize, i32)>) -> Seq<i32>
    decreases writes.len(),
{
    if writes.len() == 0 {
        regs
    } else {
        let last = writes.last();
        written(written_all(regs, writes.drop_last()), last.0 as int, last.1)
    }
}

/// However many writes are made, and to whichever registers, register 0 still
/// reads zero and the file keeps its 32 registers.
pub proof fn lemma_zero_register_stays_zero(regs: Seq<i32>, writes: Seq<(usize, i32)>)
    requires
        regs.len() == NUM_REGS,
        regs[0] == 0,
        forall|k: int| 0 <= k < writes.len() ==> (#[trigger] writes[k]).0 < NUM_REGS,
    ensures
        written_all(regs, writes).len() == NUM_REGS,
        written_all(regs, writes)[0] == 0,
    decreases writes.len(),
{
    if writes.len() > 0 {
        let init = writes.drop_last();
        assert forall|k: int| 0 <= k < init.len() implies (#[trigger] init[k]).0 < NUM_REGS by {
            assert(init[k] == writes[k]);
        }
        lemma_zero_register_stays_zero(regs, init);
        assert(writes[writes.len() - 1].0 < NUM_REGS);
    }
}

pub struct RegisterFile {
    regs: Vec<i32>,
}

impl View for RegisterFile {
    type V = Seq<i32>;

    closed spec fn view(&self) -> Seq<i32> {
        self.regs@
    }
}

impl RegisterFile {
    /// Thirty-two registers, the first of them zero.
    pub open spec fn wf(&self) -> bool {
        self@.len() == NUM_REGS && self@[0] == 0
    }

    /// A register file with every register zero.
    pub fn new() -> (r: RegisterFile)
        ensures
            r.wf(),
            r@ == Seq::new(32, |i: int| 0i32),
    {
        let mut regs: Vec<i32> = Vec::new();
        let mut k: usize = 0;
        while k < NUM_REGS
            invariant
                k <= NUM_REGS,
                regs@ == Seq::new(k as nat, |i: int| 0i32),
            decreases NUM_REGS - k,
        {
            regs.push(0);
            k = k + 1;
        }
        RegisterFile { regs }
    }

    /// The value of register `i`; register 0 reads zero.
    pub fn read(&self, i: usize) -> (r: i32)
        requires
            self.wf(),
            i < NUM_REGS,
        ensures
            r == self@[i as int],
            i == 0 ==> r == 0,
    {
        self.regs[i]
    }

    /// Stores `v` in register `i`, unless `i` is 0.
    pub fn write(&mut self, i: usize, v: i32)
        requires
            old(self).wf(),
            i < NUM_REGS,
        ensures
            final(self).wf(),
            final(self)@ == written(old(self)@, i as int, v),
    {
        if i != 0 {
            self.regs.set(i, v);
        }
    }
}

} // verus!
