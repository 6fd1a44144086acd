//! Fatal conditions of a broadcast run.
use vstd::prelude::*;
use crate::types::Addr;

verus! {

/// Why a run stopped. Every one of these is fatal: the store is persisted
/// at its current cursor and the run ends.
#[derive(Clone, Copy, Debug, PartialEq, Eq, Structural)]
pub enum BroadcastError {
    /// No key source yielded a signing identity.
    NoSigner,
    /// A plan entry's sender has no signing identity in the pool.
    UnresolvedSender { sender: Addr },
    /// The sender's nonce could not be read from the endpoint.
    NonceUnavailable { sender: Addr },
    /// The sender's nonce on chain does not match the (corrected) planned one.
    NonceConflict { sender: Addr, expected: u64, observed: u64 },
    /// The endpoint refused the transaction; it is believed not to have left.
    SubmissionRejected,
    /// The transaction was handed over but no receipt was obtained: it may
    /// or may not have been included.
    ReceiptUnavailable,
}

} // verus!
