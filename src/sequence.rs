//! The deployment sequence: the plan, its cursor and the receipts so far.
use vstd::prelude::*;
use crate::types::IntendedTransaction;

verus! {

/// The persisted unit of a run. `index` is the next entry to execute and
/// `receipts` holds one receipt per executed entry, in plan order.
pub struct DeploymentSequence<R> {
    pub transactions: Vec<IntendedTransaction>,
    pub index: usize,
    pub receipts: Vec<R>,
    pub path: String,
}

impl<R> DeploymentSequence<R> {
    /// The cursor lies within the plan and every executed entry has its receipt.
    pub open spec fn wf(&self) -> bool {
        &&& self.index <= self.transactions@.len()
        &&& self.receipts@.len() == self.index
    }

    /// A fresh sequence over a plan, with nothing executed yet.
    pub fn new(transactions: Vec<IntendedTransaction>, path: String) -> (r: Self)
        ensures
            r.wf(),
            r.index == 0,
            r.receipts@.len() == 0,
            r.transactions == transactions,
            r.path == path,
    {
        DeploymentSequence { transactions, index: 0, receipts: Vec::new(), path }
    }

    /// Whether the cursor and the receipts agree with the plan, as they must
    /// for a sequence read back from storage.
    pub fn is_consistent(&self) -> (r: bool)
        ensures
            r == self.wf(),
    {
        self.index <= self.transactions.len() && self.receipts.len() == self.index
    }

    /// Whether every entry of the plan has been executed.
    pub fn is_complete(&self) -> (r: bool)
        requires
            self.wf(),
        ensures
            r == (self.index == self.transactions@.len()),
    {
        self.index == self.transactions.len()
    }

    /// Records the receipt of the entry at the cursor and moves past it.
    pub fn append_receipt(&mut self, receipt: R)
        requires
            old(self).wf(),
            old(self).index < old(self).transactions@.len(),
        ensures
            final(self).wf(),
            final(self).index == old(self).index + 1,
            final(self).receipts@ == old(self).receipts@.push(receipt),
            final(self).transactions == old(self).transactions,
            final(self).path == old(self).path,
    {
        proof {
            assert(self.transactions@.len() == self.transactions.len());
        }
        self.receipts.push(receipt);
        self.index = self.index + 1;
    }
}

} // verus!
