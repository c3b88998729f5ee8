//! Assembly of the one transaction that carries an order: the wrap, where there
//! is one, directly in front of the order's own instructions.

use crate::instruction::{views, Instruction, InstructionView};
use vstd::prelude::*;

verus! {

/// The ordered instructions of one submission. The chain applies all of them
/// or none.
#[derive(Clone, Debug, PartialEq, Eq)]
pub struct AssembledTransaction {
    pub instructions: Vec<Instruction>,
    /// How many of the leading instructions are the wrap.
    pub wrap_len: usize,
}

impl AssembledTransaction {
    /// The wrap instructions lead and the order's follow.
    pub open spec fn wf(&self) -> bool {
        self.wrap_len <= self.instructions@.len()
    }

    /// The values of all instructions, in the order of submission.
    pub open spec fn all(&self) -> Seq<InstructionView> {
        views(self.instructions@)
    }

    /// The leading wrap instructions.
    pub open spec fn wrap_part(&self) -> Seq<InstructionView> {
        self.all().subrange(0, self.wrap_len as int)
    }

    /// The order's own instructions.
    pub open spec fn order_part(&self) -> Seq<InstructionView> {
        self.all().subrange(self.wrap_len as int, self.all().len() as int)
    }

    /// The number of instructions in the transaction.
    pub fn len(&self) -> (n: usize)
        ensures
            n == self.all().len(),
    {
        self.instructions.len()
    }
}

/// Merges the wrap and the order into one transaction: every wrap instruction,
/// in order, then every order instruction, in order. Nothing is dropped, added
/// or reordered, and nothing is left for a second submission.
pub fn assemble(order_instructions: Vec<Instruction>, wrap_instructions: Vec<Instruction>) -> (tx:
    AssembledTransaction)
    ensures
        tx.wf(),
        tx.all() == views(wrap_instructions@) + views(order_instructions@),
        tx.wrap_len == wrap_instructions@.len(),
        tx.wrap_part() == views(wrap_instructions@),
        tx.order_part() == views(order_instructions@),
        wrap_instructions@.len() == 0 ==> tx.all() == views(order_instructions@),
{
    let wrap_len = wrap_instructions.len();
    let mut instructions = wrap_instructions;
    let mut order = order_instructions;
    instructions.append(&mut order);
    let tx = AssembledTransaction { instructions, wrap_len };
    proof {
        let w = views(wrap_instructions@);
        let o = views(order_instructions@);
        assert(tx.all() =~= w + o);
        assert(tx.wrap_part() =~= w);
        assert(tx.order_part() =~= o);
        assert(w.len() == 0 ==> w + o =~= o);
    }
    tx
}

} // verus!
