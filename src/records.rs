use crate::amount::Amount;
use vstd::prelude::*;

verus! {

/// What the flow computation reads of a transaction record.
pub trait Transfer {
    spec fn sender(&self) -> Seq<char>;

    spec fn receiver(&self) -> Seq<char>;

    spec fn amount(&self) -> nat;

    spec fn failed(&self) -> bool;

    fn from_address(&self) -> (r: &String)
        ensures
            r@ == self.sender(),
    ;

    fn to_address(&self) -> (r: &String)
        ensures
            r@ == self.receiver(),
    ;

    fn value(&self) -> (r: Amount)
        ensures
            r@ == self.amount(),
    ;

    fn is_error(&self) -> (r: bool)
        ensures
            r == self.failed(),
    ;
}

/// A normal (top-level) transaction as the API lists it.
#[derive(Debug)]
pub struct NormalTransaction {
    pub block_number: u64,
    pub timestamp: u64,
    pub hash: String,
    pub nonce: u32,
    pub transaction_index: u64,
    pub from: String,
    pub to: String,
    pub value: Amount,
    pub gas: u64,
    pub gas_price: u64,
    pub is_error: bool,
    pub txreceipt_status: String,
    pub input: String,
    pub contract_address: String,
    pub cumulative_gas_used: u64,
    pub gas_used: u64,
    pub confirmations: u32,
}

/// An internal transaction (a transfer made by contract code) as the API
/// lists it.
#[derive(Debug)]
pub struct InternalTransaction {
    pub block_number: u64,
    pub timestamp: u64,
    pub hash: String,
    pub from: String,
    pub to: String,
    pub value: Amount,
    pub contract_address: String,
    pub input: String,
    pub call_type: Option<String>,
    pub gas: u64,
    pub gas_used: u64,
    pub trace_id: Option<String>,
    pub is_error: bool,
    pub err_code: Option<String>,
}

impl Transfer for NormalTransaction {
    open spec fn sender(&self) -> Seq<char> {
        self.from@
    }

    open spec fn receiver(&self) -> Seq<char> {
        self.to@
    }

    open spec fn amount(&self) -> nat {
        self.value@
    }

    open spec fn failed(&self) -> bool {
        self.is_error
    }

    fn from_address(&self) -> (r: &String) {
        &self.from
    }

    fn to_address(&self) -> (r: &String) {
        &self.to
    }

    fn value(&self) -> (r: Amount) {
        self.value
    }

    fn is_error(&self) -> (r: bool) {
        self.is_error
    }
}

impl Transfer for InternalTransaction {
    open spec fn sender(&self) -> Seq<char> {
        self.from@
    }

    open spec fn receiver(&self) -> Seq<char> {
        self.to@
    }

    open spec fn amount(&self) -> nat {
        self.value@
    }

    open spec fn failed(&self) -> bool {
        self.is_error
    }

    fn from_address(&self) -> (r: &String) {
        &self.from
    }

    fn to_address(&self) -> (r: &String) {
        &self.to
    }

    fn value(&self) -> (r: Amount) {
        self.value
    }

    fn is_error(&self) -> (r: bool) {
        self.is_error
    }
}

/// The API's textual flag: `"1"` is true, anything else false.
pub fn flag_from_str(s: &str) -> (r: bool)
    ensures
        r == (s@ == "1"@),
{
    let text = String::from_str(s);
    let one = String::from_str("1");
    text == one
}

} // verus!
