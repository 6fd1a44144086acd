//! Classification of the target chain's fee model.
use vstd::prelude::*;

verus! {

/// The chain a run targets: its identifier, and whether it takes only
/// legacy-format transactions.
#[derive(Clone, Copy, Debug, PartialEq, Eq, Structural)]
pub struct ChainProfile {
    pub chain_id: u64,
    pub legacy: bool,
}

/// Whether `chain_id` is a chain that ethers' chain table knows and marks as
/// not supporting dynamic-fee transactions (false for chains it does not know).
pub uninterp spec fn listed_legacy(chain_id: u64) -> bool;

/// Relies on `ethers::types::Chain::try_from(u64)` and `Chain::is_legacy`:
/// whether the identifier names a known chain without dynamic-fee support.
#[verifier::external_body]
fn chain_table_is_legacy(chain_id: u64) -> (r: bool)
    ensures
        r == listed_legacy(chain_id),
{
    ethers::types::Chain::try_from(chain_id).as_ref().map_or(false, ethers::types::Chain::is_legacy)
}

/// The profile of a chain, given whether the chain table lists it as legacy:
/// legacy when the caller forces it or when the table says so.
pub fn profile_from(chain_id: u64, legacy_override: bool, listed: bool) -> (r: ChainProfile)
    ensures
        r == (ChainProfile { chain_id, legacy: legacy_override || listed }),
{
    ChainProfile { chain_id, legacy: legacy_override || listed }
}

/// Classifies the chain with identifier `chain_id` (as reported by the
/// endpoint): legacy when the caller forces it or when the chain is listed
/// as lacking dynamic-fee support.
pub fn classify_chain(chain_id: u64, legacy_override: bool) -> (r: ChainProfile)
    ensures
        r.chain_id == chain_id,
        r.legacy == (legacy_override || listed_legacy(chain_id)),
{
    let listed = chain_table_is_legacy(chain_id);
    profile_from(chain_id, legacy_override, listed)
}

} // verus!
