//! Turning plan entries into wire-format transactions.
use vstd::prelude::*;
use crate::types::{IntendedTransaction, TransactionRequest, Eip1559TransactionRequest, TypedTransaction};
use crate::chain::ChainProfile;

verus! {

/// `tx` with its chain identifier set to `chain_id`, every other field kept.
pub open spec fn with_chain_id(tx: TypedTransaction, chain_id: u64) -> TypedTransaction {
    match tx {
        TypedTransaction::Legacy(t) => TypedTransaction::Legacy(
            TransactionRequest { chain_id: Some(chain_id), ..t },
        ),
        TypedTransaction::Eip1559(t) => TypedTransaction::Eip1559(
            Eip1559TransactionRequest { chain_id: Some(chain_id), ..t },
        ),
    }
}

/// The dynamic-fee form of `tx`: a legacy request keeps sender, recipient,
/// value, payload and nonce and leaves every fee field and the chain
/// identifier unset; a dynamic-fee request is kept as it is.
pub open spec fn as_1559(tx: TypedTransaction) -> Eip1559TransactionRequest {
    match tx {
        TypedTransaction::Legacy(t) => Eip1559TransactionRequest {
            from: t.from,
            to: t.to,
            gas: None,
            value: t.value,
            data: t.data,
            nonce: t.nonce,
            max_priority_fee_per_gas: None,
            max_fee_per_gas: None,
            chain_id: None,
        },
        TypedTransaction::Eip1559(t) => t,
    }
}

/// The legacy request that a plan entry stands for, stamped with `nonce`;
/// gas settings from the plan are carried over.
pub open spec fn legacy_of(entry: IntendedTransaction, nonce: u64) -> TransactionRequest {
    TransactionRequest {
        from: Some(entry.from),
        to: entry.to,
        gas: entry.gas,
        gas_price: entry.gas_price,
        value: entry.value,
        data: Some(entry.data),
        nonce: Some(nonce),
        chain_id: None,
    }
}

/// The wire transaction for `entry` at `nonce` on the chain `profile`
/// describes: legacy on a legacy chain, dynamic-fee otherwise, and in both
/// cases stamped with the profile's chain identifier.
pub open spec fn shaped(entry: IntendedTransaction, nonce: u64, profile: ChainProfile) -> TypedTransaction {
    let legacy = TypedTransaction::Legacy(legacy_of(entry, nonce));
    if profile.legacy {
        with_chain_id(legacy, profile.chain_id)
    } else {
        with_chain_id(TypedTransaction::Eip1559(as_1559(legacy)), profile.chain_id)
    }
}

/// Stamps `chain_id` onto the transaction, whichever its format.
pub fn set_chain_id(tx: &mut TypedTransaction, chain_id: u64)
    ensures
        *final(tx) == with_chain_id(*old(tx), chain_id),
{
    match tx {
        TypedTransaction::Legacy(t) => t.chain_id = Some(chain_id),
        TypedTransaction::Eip1559(t) => t.chain_id = Some(chain_id),
    }
}

/// The legacy request inside a legacy transaction.
pub fn into_legacy(tx: TypedTransaction) -> (r: TransactionRequest)
    requires
        tx is Legacy,
    ensures
        r == tx->Legacy_0,
{
    match tx {
        TypedTransaction::Legacy(t) => t,
        TypedTransaction::Eip1559(_) => vstd::pervasive::unreached(),
    }
}

/// A reference to the legacy request inside a legacy transaction.
pub fn into_legacy_ref(tx: &TypedTransaction) -> (r: &TransactionRequest)
    requires
        tx is Legacy,
    ensures
        *r == tx->Legacy_0,
{
    match tx {
        TypedTransaction::Legacy(t) => t,
        TypedTransaction::Eip1559(_) => vstd::pervasive::unreached(),
    }
}

/// Converts a transaction to the dynamic-fee format.
pub fn into_1559(tx: TypedTransaction) -> (r: Eip1559TransactionRequest)
    ensures
        r == as_1559(tx),
{
    match tx {
        TypedTransaction::Legacy(t) => Eip1559TransactionRequest {
            from: t.from,
            to: t.to,
            gas: None,
            value: t.value,
            data: t.data,
            nonce: t.nonce,
            max_priority_fee_per_gas: None,
            max_fee_per_gas: None,
            chain_id: None,
        },
        TypedTransaction::Eip1559(t) => t,
    }
}

/// The call payload a transaction carries, as bytes.
pub open spec fn payload_of(tx: TypedTransaction) -> Option<Seq<u8>> {
    match tx {
        TypedTransaction::Legacy(t) => match t.data {
            Some(d) => Some(d@),
            None => None,
        },
        TypedTransaction::Eip1559(t) => match t.data {
            Some(d) => Some(d@),
            None => None,
        },
    }
}

/// `tx` with its payload removed, every other field kept.
pub open spec fn without_payload(tx: TypedTransaction) -> TypedTransaction {
    match tx {
        TypedTransaction::Legacy(t) => TypedTransaction::Legacy(TransactionRequest { data: None, ..t }),
        TypedTransaction::Eip1559(t) => TypedTransaction::Eip1559(
            Eip1559TransactionRequest { data: None, ..t },
        ),
    }
}

/// Two transactions that agree in format, in every field, and in the bytes
/// of their payloads.
pub open spec fn same_tx(a: TypedTransaction, b: TypedTransaction) -> bool {
    without_payload(a) == without_payload(b) && payload_of(a) == payload_of(b)
}

/// Shapes a plan entry into the wire format that `profile` calls for,
/// carrying `nonce` as the transaction's nonce.
pub fn shape(entry: &IntendedTransaction, nonce: u64, profile: &ChainProfile) -> (r: TypedTransaction)
    ensures
        same_tx(r, shaped(*entry, nonce, *profile)),
        profile.legacy ==> r is Legacy && r->Legacy_0.chain_id == Some(profile.chain_id),
        !profile.legacy ==> r is Eip1559 && r->Eip1559_0.chain_id == Some(profile.chain_id),
        profile.legacy ==> r->Legacy_0.nonce == Some(nonce),
        !profile.legacy ==> r->Eip1559_0.nonce == Some(nonce),
{
    let data = entry.data.clone();
    proof {
        assert(data@ =~= entry.data@);
    }
    let legacy = TransactionRequest {
        from: Some(entry.from),
        to: entry.to,
        gas: entry.gas,
        gas_price: entry.gas_price,
        value: entry.value,
        data: Some(data),
        nonce: Some(nonce),
        chain_id: None,
    };
    let mut tx = if profile.legacy {
        TypedTransaction::Legacy(legacy)
    } else {
        TypedTransaction::Eip1559(into_1559(TypedTransaction::Legacy(legacy)))
    };
    set_chain_id(&mut tx, profile.chain_id);
    tx
}

} // verus!
