use script_broadcast::chain::ChainProfile;
use script_broadcast::shaper::{into_1559, into_legacy, into_legacy_ref, set_chain_id, shape};
use script_broadcast::types::{Addr, IntendedTransaction, TransactionRequest, TypedTransaction, Word};

fn addr(n: u32) -> Addr {
    Addr { hi: 0, mid: 0, lo: n }
}

fn entry() -> IntendedTransaction {
    IntendedTransaction {
        from: addr(1),
        to: Some(addr(2)),
        value: Some(Word { hi: 0, lo: 1000 }),
        data: vec![0xde, 0xad, 0xbe, 0xef],
        nonce: 5,
        gas: Some(Word { hi: 0, lo: 50000 }),
        gas_price: Some(Word { hi: 0, lo: 3 }),
    }
}

fn legacy_request() -> TransactionRequest {
    TransactionRequest {
        from: Some(addr(1)),
        to: None,
        gas: Some(Word { hi: 0, lo: 21000 }),
        gas_price: Some(Word { hi: 0, lo: 7 }),
        value: None,
        data: Some(vec![1, 2, 3]),
        nonce: Some(9),
        chain_id: None,
    }
}

#[test]
fn shape_on_legacy_chain_gives_legacy_with_chain_id() {
    let profile = ChainProfile { chain_id: 56, legacy: true };
    let tx = shape(&entry(), 11, &profile);
    match tx {
        TypedTransaction::Legacy(t) => {
            assert_eq!(t.chain_id, Some(56));
            assert_eq!(t.nonce, Some(11));
            assert_eq!(t.from, Some(addr(1)));
            assert_eq!(t.to, Some(addr(2)));
            assert_eq!(t.value, Some(Word { hi: 0, lo: 1000 }));
            assert_eq!(t.data, Some(vec![0xde, 0xad, 0xbe, 0xef]));
            assert_eq!(t.gas, Some(Word { hi: 0, lo: 50000 }));
            assert_eq!(t.gas_price, Some(Word { hi: 0, lo: 3 }));
        }
        other => panic!("expected legacy, got {:?}", other),
    }
}

#[test]
fn shape_on_modern_chain_gives_dynamic_fee_with_chain_id() {
    let profile = ChainProfile { chain_id: 1, legacy: false };
    let tx = shape(&entry(), 5, &profile);
    match tx {
        TypedTransaction::Eip1559(t) => {
            assert_eq!(t.chain_id, Some(1));
            assert_eq!(t.nonce, Some(5));
            assert_eq!(t.from, Some(addr(1)));
            assert_eq!(t.to, Some(addr(2)));
            assert_eq!(t.data, Some(vec![0xde, 0xad, 0xbe, 0xef]));
            assert_eq!(t.max_fee_per_gas, None);
            assert_eq!(t.max_priority_fee_per_gas, None);
        }
        other => panic!("expected dynamic-fee, got {:?}", other),
    }
}

#[test]
fn into_1559_carries_fields_and_drops_fees() {
    let r = into_1559(TypedTransaction::Legacy(legacy_request()));
    assert_eq!(r.from, Some(addr(1)));
    assert_eq!(r.to, None);
    assert_eq!(r.value, None);
    assert_eq!(r.data, Some(vec![1, 2, 3]));
    assert_eq!(r.nonce, Some(9));
    assert_eq!(r.gas, None);
    assert_eq!(r.chain_id, None);
}

#[test]
fn into_1559_keeps_dynamic_fee_request() {
    let mut r = into_1559(TypedTransaction::Legacy(legacy_request()));
    r.max_fee_per_gas = Some(Word { hi: 0, lo: 100 });
    let again = into_1559(TypedTransaction::Eip1559(r));
    assert_eq!(again.max_fee_per_gas, Some(Word { hi: 0, lo: 100 }));
    assert_eq!(again.nonce, Some(9));
}

#[test]
fn set_chain_id_stamps_both_formats() {
    let mut legacy = TypedTransaction::Legacy(legacy_request());
    set_chain_id(&mut legacy, 10);
    assert_eq!(into_legacy_ref(&legacy).chain_id, Some(10));
    assert_eq!(into_legacy(legacy).gas_price, Some(Word { hi: 0, lo: 7 }));

    let mut modern = TypedTransaction::Eip1559(into_1559(TypedTransaction::Legacy(legacy_request())));
    set_chain_id(&mut modern, 137);
    match modern {
        TypedTransaction::Eip1559(t) => assert_eq!(t.chain_id, Some(137)),
        other => panic!("expected dynamic-fee, got {:?}", other),
    }
}
