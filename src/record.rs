//! The output record a proof claims about a program run, and the input
//! record a contract typically receives.
use vstd::prelude::*;

verus! {

/// The claim a proof makes: the state before and after the run, and the
/// context of the call. `version` numbers the schema; fields are only
/// ever added to it.
pub struct HyleOutput<T> {
    pub version: u32,
    pub initial_state: Vec<u8>,
    pub next_state: Vec<u8>,
    pub origin: String,
    pub caller: String,
    pub block_number: u64,
    pub block_time: u64,
    pub tx_hash: Vec<u8>,
    pub program_outputs: T,
}

/// The input a contract typically receives; contracts are free to use
/// another shape.
pub struct HyleInput<T> {
    pub initial_state: Vec<u8>,
    pub origin: String,
    pub caller: String,
    pub block_number: u64,
    pub block_time: u64,
    pub tx_hash: Vec<u8>,
    pub program_inputs: T,
}

/// A transfer, as program output of a token contract.
pub struct Event {
    pub from: String,
    pub to: String,
    pub amount: u64,
}

} // verus!
