use script_broadcast::chain::{classify_chain, profile_from, ChainProfile};
use script_broadcast::error::BroadcastError;
use script_broadcast::identity::{build_identity_pool, find_identity};
use script_broadcast::types::Addr;

fn addr(n: u32) -> Addr {
    Addr { hi: 0, mid: 0, lo: n }
}

#[test]
fn pool_unites_sources_in_order() {
    let pool = build_identity_pool(vec![vec![addr(1)], vec![], vec![addr(2), addr(3)]]).unwrap();
    assert_eq!(pool, vec![addr(1), addr(2), addr(3)]);
    assert_eq!(build_identity_pool(vec![vec![], vec![addr(5)]]), Ok(vec![addr(5)]));
}

#[test]
fn empty_pool_is_no_signer() {
    assert_eq!(build_identity_pool(vec![]), Err(BroadcastError::NoSigner));
    assert_eq!(build_identity_pool(vec![vec![], vec![]]), Err(BroadcastError::NoSigner));
}

#[test]
fn find_identity_by_address() {
    let pool = vec![addr(4), addr(7), addr(4)];
    assert_eq!(find_identity(&pool, addr(4)), Some(0));
    assert_eq!(find_identity(&pool, addr(7)), Some(1));
    assert_eq!(find_identity(&pool, addr(8)), None);
    assert_eq!(find_identity(&vec![], addr(8)), None);
}

#[test]
fn mainnet_uses_dynamic_fees() {
    assert_eq!(classify_chain(1, false), ChainProfile { chain_id: 1, legacy: false });
}

#[test]
fn listed_legacy_chain_is_legacy() {
    // 42220 is Celo, 56 is BNB Smart Chain: both listed without dynamic fees.
    assert_eq!(classify_chain(42220, false), ChainProfile { chain_id: 42220, legacy: true });
    assert_eq!(classify_chain(56, false), ChainProfile { chain_id: 56, legacy: true });
}

#[test]
fn unknown_chain_is_not_legacy_unless_forced() {
    assert_eq!(classify_chain(987654321, false), ChainProfile { chain_id: 987654321, legacy: false });
    assert_eq!(classify_chain(987654321, true), ChainProfile { chain_id: 987654321, legacy: true });
    assert_eq!(classify_chain(1, true), ChainProfile { chain_id: 1, legacy: true });
}

#[test]
fn profile_from_ors_override_and_table() {
    assert_eq!(profile_from(5, false, false), ChainProfile { chain_id: 5, legacy: false });
    assert_eq!(profile_from(5, true, false), ChainProfile { chain_id: 5, legacy: true });
    assert_eq!(profile_from(5, false, true), ChainProfile { chain_id: 5, legacy: true });
}
