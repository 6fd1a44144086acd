//! Plain-valued data model of accounts, amounts and transactions.
use vstd::prelude::*;

verus! {

/// A 20-byte account address, held big-endian as 8 + 8 + 4 bytes.
#[derive(Clone, Copy, Debug, PartialEq, Eq, Structural)]
pub struct Addr {
    pub hi: u64,
    pub mid: u64,
    pub lo: u32,
}

/// A 256-bit unsigned quantity (an amount of wei or of gas), as two halves.
#[derive(Clone, Copy, Debug, PartialEq, Eq, Structural)]
pub struct Word {
    pub hi: u128,
    pub lo: u128,
}

/// One entry of a plan: who sends, to whom, what, at which planned nonce,
/// and with which gas settings if any.
/// A missing recipient stands for contract creation.
#[derive(Clone, Debug)]
pub struct IntendedTransaction {
    pub from: Addr,
    pub to: Option<Addr>,
    pub value: Option<Word>,
    pub data: Vec<u8>,
    pub nonce: u64,
    /// Gas limit and gas price, where the planner set them.
    pub gas: Option<Word>,
    pub gas_price: Option<Word>,
}

/// A transaction in the legacy fee format (a single gas price).
#[derive(Clone, Debug)]
pub struct TransactionRequest {
    pub from: Option<Addr>,
    pub to: Option<Addr>,
    pub gas: Option<Word>,
    pub gas_price: Option<Word>,
    pub value: Option<Word>,
    pub data: Option<Vec<u8>>,
    pub nonce: Option<u64>,
    pub chain_id: Option<u64>,
}

/// A transaction in the dynamic-fee format (priority fee and fee cap).
#[derive(Clone, Debug)]
pub struct Eip1559TransactionRequest {
    pub from: Option<Addr>,
    pub to: Option<Addr>,
    pub gas: Option<Word>,
    pub value: Option<Word>,
    pub data: Option<Vec<u8>>,
    pub nonce: Option<u64>,
    pub max_priority_fee_per_gas: Option<Word>,
    pub max_fee_per_gas: Option<Word>,
    pub chain_id: Option<u64>,
}

/// A transaction in one of the two wire formats.
#[derive(Clone, Debug)]
pub enum TypedTransaction {
    Legacy(TransactionRequest),
    Eip1559(Eip1559TransactionRequest),
}

} // verus!
