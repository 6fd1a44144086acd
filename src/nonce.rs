//! Reconciling planned nonces with the nonces the chain reports.
use vstd::prelude::*;
use crate::types::Addr;

verus! {

/// The correction each sender's planned nonces receive in one run. A
/// sender's offset is fixed the first time the sender is reconciled and is
/// never derived again in that run.
pub struct NonceOffsetTable {
    entries: Vec<(Addr, u64)>,
    offsets: Ghost<Map<Addr, u64>>,
}

/// The outcome of reconciling one planned nonce: the table afterwards, and
/// the nonce to stamp, or `None` on a conflict.
pub open spec fn reconciled(
    table: Map<Addr, u64>,
    sender: Addr,
    planned: u64,
    observed: u64,
    resume_mode: bool,
) -> (Map<Addr, u64>, Option<u64>) {
    if !resume_mode {
        (table, if observed == planned { Some(planned) } else { None })
    } else if table.contains_key(sender) {
        (table, if planned + table[sender] == observed { Some(observed) } else { None })
    } else if observed >= planned {
        (table.insert(sender, (observed - planned) as u64), Some(observed))
    } else {
        (table, None)
    }
}

/// The nonce a conflict report gives as expected: the planned nonce plus
/// the sender's offset, where it has one and it fits.
pub open spec fn expected_nonce(table: Map<Addr, u64>, sender: Addr, planned: u64, resume_mode: bool) -> u64 {
    if resume_mode && table.contains_key(sender) && planned + table[sender] <= u64::MAX {
        (planned + table[sender]) as u64
    } else {
        planned
    }
}

impl View for NonceOffsetTable {
    type V = Map<Addr, u64>;

    closed spec fn view(&self) -> Map<Addr, u64> {
        self.offsets@
    }
}

impl NonceOffsetTable {
    /// The table's entries agree with its map of offsets.
    pub closed spec fn wf(&self) -> bool {
        &&& forall|a: Addr| #[trigger] self.offsets@.contains_key(a)
            <==> exists|i: int| 0 <= i < self.entries@.len() && self.entries@[i].0 == a
        &&& forall|i: int| 0 <= i < self.entries@.len()
            ==> #[trigger] self.offsets@.contains_key(self.entries@[i].0)
            && self.offsets@[self.entries@[i].0] == self.entries@[i].1
    }

    /// A table with no offsets, as at the start of a run.
    pub fn new() -> (r: Self)
        ensures
            r.wf(),
            r@ == Map::<Addr, u64>::empty(),
    {
        NonceOffsetTable { entries: Vec::new(), offsets: Ghost(Map::empty()) }
    }

    /// The offset recorded for `sender`, if any.
    pub fn get(&self, sender: Addr) -> (r: Option<u64>)
        requires
            self.wf(),
        ensures
            r is Some <==> self@.contains_key(sender),
            r is Some ==> r->Some_0 == self@[sender],
    {
        let mut i: usize = 0;
        while i < self.entries.len()
            invariant
                self.wf(),
                i <= self.entries@.len(),
                forall|k: int| 0 <= k < i ==> self.entries@[k].0 != sender,
            decreases self.entries@.len() - i,
        {
            if self.entries[i].0 == sender {
                return Some(self.entries[i].1);
            }
            i += 1;
        }
        None
    }

    fn insert_new(&mut self, sender: Addr, offset: u64)
        requires
            old(self).wf(),
            !old(self)@.contains_key(sender),
        ensures
            final(self).wf(),
            final(self)@ == old(self)@.insert(sender, offset),
    {
        let ghost prev = self.entries@;
        self.entries.push((sender, offset));
        self.offsets = Ghost(self.offsets@.insert(sender, offset));
        proof {
            assert forall|a: Addr| #[trigger] self.offsets@.contains_key(a)
                <==> exists|i: int| 0 <= i < self.entries@.len() && self.entries@[i].0 == a by {
                if a == sender {
                    assert(self.entries@[prev.len() as int].0 == a);
                } else if self.offsets@.contains_key(a) {
                    let i = choose|i: int| 0 <= i < prev.len() && prev[i].0 == a;
                    assert(self.entries@[i].0 == a);
                } else if exists|i: int| 0 <= i < self.entries@.len() && self.entries@[i].0 == a {
                    let i = choose|i: int| 0 <= i < self.entries@.len() && self.entries@[i].0 == a;
                    assert(prev[i].0 == a);
                }
            }
            assert forall|i: int| 0 <= i < self.entries@.len()
                implies #[trigger] self.offsets@.contains_key(self.entries@[i].0)
                && self.offsets@[self.entries@[i].0] == self.entries@[i].1 by {
                if i < prev.len() {
                    assert(prev[i] == self.entries@[i]);
                    assert(prev[i].0 != sender);
                }
            }
        }
    }

    /// Reconciles `sender`'s planned nonce with the `observed` one.
    /// Without resume mode the two must be equal. In resume mode the first
    /// call for a sender records `observed - planned` as its offset (a chain
    /// behind the plan is a conflict), and every call stamps
    /// `planned + offset`, which must equal `observed`.
    pub fn reconcile(&mut self, sender: Addr, planned: u64, observed: u64, resume_mode: bool) -> (r: Option<u64>)
        requires
            old(self).wf(),
        ensures
            final(self).wf(),
            (final(self)@, r) == reconciled(old(self)@, sender, planned, observed, resume_mode),
    {
        if !resume_mode {
            return if observed == planned { Some(planned) } else { None };
        }
        match self.get(sender) {
            Some(offset) => {
                if planned as u128 + offset as u128 == observed as u128 {
                    Some(observed)
                } else {
                    None
                }
            },
            None => {
                if observed >= planned {
                    self.insert_new(sender, observed - planned);
                    Some(observed)
                } else {
                    None
                }
            },
        }
    }

    /// The nonce that `reconcile` would have required of the chain.
    pub fn expected(&self, sender: Addr, planned: u64, resume_mode: bool) -> (r: u64)
        requires
            self.wf(),
        ensures
            r == expected_nonce(self@, sender, planned, resume_mode),
    {
        if resume_mode {
            match self.get(sender) {
                Some(offset) => {
                    if planned <= u64::MAX - offset {
                        planned + offset
                    } else {
                        planned
                    }
                },
                None => planned,
            }
        } else {
            planned
        }
    }
}

} // verus!
