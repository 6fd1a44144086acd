//! The broadcast run as a state machine. The caller performs each action
//! (a nonce query, a submission, a write of the sequence) and hands the
//! outcome back as an event; every decision is taken here.
use vstd::prelude::*;
use crate::types::{Addr, IntendedTransaction, TypedTransaction};
use crate::chain::ChainProfile;
use crate::error::BroadcastError;
use crate::identity::find_identity;
use crate::nonce::{NonceOffsetTable, reconciled, expected_nonce};
use crate::sequence::DeploymentSequence;
use crate::shaper::{shape, shaped, same_tx};

verus! {

/// Where the run stands with the entry at the cursor.
#[derive(Clone, Copy, Debug, PartialEq, Eq, Structural)]
pub enum Phase {
    /// About to pick the signer of the entry at the cursor (or to finish).
    Ready,
    /// Waiting for the sender's nonce as the chain reports it.
    AwaitingNonce { signer: usize },
    /// The entry was handed over for signing and submission; waiting for
    /// its receipt.
    AwaitingReceipt { signer: usize },
    /// Every entry has its receipt.
    Finished,
    /// A fatal condition ended the run.
    Aborted,
}

/// What the caller observed after performing the last action.
#[derive(Debug)]
pub enum Event<R> {
    /// Go on (at the start, and after the sequence was written).
    Proceed,
    /// The sender's next nonce, as the chain reports it.
    NonceObserved(u64),
    /// The nonce query failed.
    NonceUnavailable,
    /// The submitted transaction was included; its receipt.
    Receipt(R),
    /// The transaction was submitted, but no receipt came back.
    ReceiptUnavailable,
    /// The endpoint refused the transaction.
    SubmissionRejected,
}

/// What the caller must do next.
#[derive(Debug)]
pub enum Action {
    /// Read `sender`'s next nonce from the chain.
    QueryNonce { sender: Addr },
    /// Sign `tx` with the identity at position `signer` of the pool, submit
    /// it, and wait for its receipt.
    Submit { signer: usize, tx: TypedTransaction },
    /// Write the sequence to its backing location, then go on.
    Persist,
    /// Write the sequence; the run succeeded.
    PersistAndFinish,
    /// Write the sequence; the run failed with the given error.
    PersistAndAbort(BroadcastError),
}

/// What stays fixed during a run.
pub struct RunContext {
    pub plan: Seq<IntendedTransaction>,
    pub identities: Seq<Addr>,
    pub profile: ChainProfile,
    pub resume_mode: bool,
}

/// What a run changes: the cursor, the receipts, the nonce offsets, the phase.
pub struct RunState<R> {
    pub index: nat,
    pub receipts: Seq<R>,
    pub offsets: Map<Addr, u64>,
    pub phase: Phase,
}

/// The first position of `a` in `s` (meaningful when `s` contains `a`).
pub open spec fn first_position(s: Seq<Addr>, a: Addr) -> int {
    choose|i: int| 0 <= i < s.len() && s[i] == a && forall|k: int| 0 <= k < i ==> s[k] != a
}

/// A state that a run can be in: the cursor within the plan, one receipt
/// per executed entry, and a pending signer that belongs to the entry's sender.
pub open spec fn state_wf<R>(c: RunContext, s: RunState<R>) -> bool {
    &&& c.identities.len() <= usize::MAX
    &&& s.index <= c.plan.len()
    &&& s.receipts.len() == s.index
    &&& match s.phase {
        Phase::AwaitingNonce { signer } | Phase::AwaitingReceipt { signer } => {
            &&& s.index < c.plan.len()
            &&& signer < c.identities.len()
            &&& c.identities[signer as int] == c.plan[s.index as int].from
        },
        Phase::Finished => s.index == c.plan.len(),
        _ => true,
    }
}

/// Whether an event answers the action the state is waiting on.
pub open spec fn accepts<R>(s: RunState<R>, e: Event<R>) -> bool {
    match s.phase {
        Phase::Ready => e is Proceed,
        Phase::AwaitingNonce { .. } => e is NonceObserved || e is NonceUnavailable,
        Phase::AwaitingReceipt { .. } => e is Receipt || e is ReceiptUnavailable || e is SubmissionRejected,
        _ => false,
    }
}

/// `s` moved to phase `p`, everything else kept.
pub open spec fn enter<R>(s: RunState<R>, p: Phase) -> RunState<R> {
    RunState { phase: p, ..s }
}

/// One transition of the run: the next state and the action to perform.
pub open spec fn step<R>(c: RunContext, s: RunState<R>, e: Event<R>) -> (RunState<R>, Action) {
    match s.phase {
        Phase::Ready => {
            if c.identities.len() == 0 {
                (enter(s, Phase::Aborted), Action::PersistAndAbort(BroadcastError::NoSigner))
            } else if s.index >= c.plan.len() {
                (enter(s, Phase::Finished), Action::PersistAndFinish)
            } else {
                let sender = c.plan[s.index as int].from;
                if c.identities.contains(sender) {
                    let signer = first_position(c.identities, sender) as usize;
                    (enter(s, Phase::AwaitingNonce { signer }), Action::QueryNonce { sender })
                } else {
                    (enter(s, Phase::Aborted), Action::PersistAndAbort(BroadcastError::UnresolvedSender { sender }))
                }
            }
        },
        Phase::AwaitingNonce { signer } => {
            let entry = c.plan[s.index as int];
            match e {
                Event::NonceObserved(observed) => {
                    let (offsets, stamped) = reconciled(s.offsets, entry.from, entry.nonce, observed, c.resume_mode);
                    match stamped {
                        Some(nonce) => (
                            RunState { offsets, phase: Phase::AwaitingReceipt { signer }, ..s },
                            Action::Submit { signer, tx: shaped(entry, nonce, c.profile) },
                        ),
                        None => (
                            RunState { offsets, phase: Phase::Aborted, ..s },
                            Action::PersistAndAbort(BroadcastError::NonceConflict {
                                sender: entry.from,
                                expected: expected_nonce(s.offsets, entry.from, entry.nonce, c.resume_mode),
                                observed,
                            }),
                        ),
                    }
                },
                _ => (
                    enter(s, Phase::Aborted),
                    Action::PersistAndAbort(BroadcastError::NonceUnavailable { sender: entry.from }),
                ),
            }
        },
        Phase::AwaitingReceipt { .. } => match e {
            Event::Receipt(r) => (
                RunState { index: s.index + 1, receipts: s.receipts.push(r), phase: Phase::Ready, ..s },
                Action::Persist,
            ),
            Event::ReceiptUnavailable => (
                enter(s, Phase::Aborted),
                Action::PersistAndAbort(BroadcastError::ReceiptUnavailable),
            ),
            _ => (enter(s, Phase::Aborted), Action::PersistAndAbort(BroadcastError::SubmissionRejected)),
        },
        _ => (s, Action::Persist),
    }
}

/// Two actions that ask for the same thing (submitted transactions compared
/// field by field, payloads by their bytes).
pub open spec fn same_action(a: Action, b: Action) -> bool {
    match (a, b) {
        (Action::Submit { signer: s1, tx: t1 }, Action::Submit { signer: s2, tx: t2 }) => s1 == s2 && same_tx(t1, t2),
        _ => a == b,
    }
}

/// A broadcast run over one deployment sequence.
pub struct Broadcaster<R> {
    pub sequence: DeploymentSequence<R>,
    pub identities: Vec<Addr>,
    pub profile: ChainProfile,
    pub resume_mode: bool,
    pub offsets: NonceOffsetTable,
    pub phase: Phase,
}

impl<R> Broadcaster<R> {
    pub open spec fn context(&self) -> RunContext {
        RunContext {
            plan: self.sequence.transactions@,
            identities: self.identities@,
            profile: self.profile,
            resume_mode: self.resume_mode,
        }
    }

    pub open spec fn state(&self) -> RunState<R> {
        RunState {
            index: self.sequence.index as nat,
            receipts: self.sequence.receipts@,
            offsets: self.offsets@,
            phase: self.phase,
        }
    }

    pub open spec fn wf(&self) -> bool {
        &&& self.sequence.wf()
        &&& self.offsets.wf()
        &&& state_wf(self.context(), self.state())
    }

    /// Starts a run at the sequence's cursor, with no nonce offsets yet.
    pub fn new(sequence: DeploymentSequence<R>, identities: Vec<Addr>, profile: ChainProfile, resume_mode: bool) -> (r: Self)
        requires
            sequence.wf(),
        ensures
            r.wf(),
            r.sequence == sequence,
            r.identities == identities,
            r.profile == profile,
            r.resume_mode == resume_mode,
            r.state() == (RunState::<R> {
                index: sequence.index as nat,
                receipts: sequence.receipts@,
                offsets: Map::empty(),
                phase: Phase::Ready,
            }),
    {
        proof {
            assert(identities@.len() == identities.len());
        }
        Broadcaster { sequence, identities, profile, resume_mode, offsets: NonceOffsetTable::new(), phase: Phase::Ready }
    }

    /// Whether `event` answers the action this run is waiting on.
    pub fn accepts(&self, event: &Event<R>) -> (r: bool)
        ensures
            r == accepts(self.state(), *event),
    {
        match self.phase {
            Phase::Ready => matches!(event, Event::Proceed),
            Phase::AwaitingNonce { .. } => matches!(event, Event::NonceObserved(_) | Event::NonceUnavailable),
            Phase::AwaitingReceipt { .. } => matches!(
                event,
                Event::Receipt(_) | Event::ReceiptUnavailable | Event::SubmissionRejected
            ),
            _ => false,
        }
    }

    /// Takes the outcome of the last action and decides the next one.
    pub fn advance(&mut self, event: Event<R>) -> (r: Action)
        requires
            old(self).wf(),
            accepts(old(self).state(), event),
        ensures
            final(self).wf(),
            final(self).context() == old(self).context(),
            final(self).sequence.path == old(self).sequence.path,
            final(self).state() == step(old(self).context(), old(self).state(), event).0,
            same_action(r, step(old(self).context(), old(self).state(), event).1),
    {
        match self.phase {
            Phase::Ready => {
                if self.identities.len() == 0 {
                    self.phase = Phase::Aborted;
                    return Action::PersistAndAbort(BroadcastError::NoSigner);
                }
                if self.sequence.is_complete() {
                    self.phase = Phase::Finished;
                    return Action::PersistAndFinish;
                }
                let sender = self.sequence.transactions[self.sequence.index].from;
                match find_identity(&self.identities, sender) {
                    Some(signer) => {
                        proof {
                            let f = first_position(self.identities@, sender);
                            assert(self.identities@[signer as int] == sender);
                            assert(f == signer as int) by {
                                if f < signer as int {
                                    assert(self.identities@[f] != sender);
                                } else if f > signer as int {
                                    assert(self.identities@[signer as int] != sender);
                                }
                            }
                        }
                        self.phase = Phase::AwaitingNonce { signer };
                        Action::QueryNonce { sender }
                    },
                    None => {
                        self.phase = Phase::Aborted;
                        Action::PersistAndAbort(BroadcastError::UnresolvedSender { sender })
                    },
                }
            },
            Phase::AwaitingNonce { signer } => {
                let sender = self.sequence.transactions[self.sequence.index].from;
                let planned = self.sequence.transactions[self.sequence.index].nonce;
                match event {
                    Event::NonceObserved(observed) => {
                        let expected = self.offsets.expected(sender, planned, self.resume_mode);
                        match self.offsets.reconcile(sender, planned, observed, self.resume_mode) {
                            Some(nonce) => {
                                let tx = shape(&self.sequence.transactions[self.sequence.index], nonce, &self.profile);
                                self.phase = Phase::AwaitingReceipt { signer };
                                Action::Submit { signer, tx }
                            },
                            None => {
                                self.phase = Phase::Aborted;
                                Action::PersistAndAbort(BroadcastError::NonceConflict { sender, expected, observed })
                            },
                        }
                    },
                    _ => {
                        self.phase = Phase::Aborted;
                        Action::PersistAndAbort(BroadcastError::NonceUnavailable { sender })
                    },
                }
            },
            Phase::AwaitingReceipt { .. } => match event {
                Event::Receipt(receipt) => {
                    self.sequence.append_receipt(receipt);
                    self.phase = Phase::Ready;
                    Action::Persist
                },
                Event::ReceiptUnavailable => {
                    self.phase = Phase::Aborted;
                    Action::PersistAndAbort(BroadcastError::ReceiptUnavailable)
                },
                _ => {
                    self.phase = Phase::Aborted;
                    Action::PersistAndAbort(BroadcastError::SubmissionRejected)
                },
            },
            _ => vstd::pervasive::unreached(),
        }
    }
}

} // verus!
