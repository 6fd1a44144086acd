//! Execution engine for a planned batch of blockchain transactions: signer
//! resolution, chain-profile classification, nonce reconciliation, transaction
//! shaping, and a resumable broadcast state machine.
use vstd::prelude::*;

pub mod types;
pub mod wallet;
pub mod broadcaster;
pub mod chain;
pub mod error;
pub mod identity;
pub mod laws;
pub mod nonce;
pub mod parse;
pub mod sequence;
pub mod shaper;

verus! {

} // verus!
