//! The messages that the contract takes and the answer that it gives.
use vstd::prelude::*;

verus! {

/// Sent once, when the contract is instantiated.
#[derive(Clone, Copy, Debug, PartialEq, Eq, Structural)]
pub struct InstantiateMsg {
    pub counter_value: u64,
}

/// The changes that `execute` can make.
#[derive(Clone, Copy, Debug, PartialEq, Eq, Structural)]
pub enum ExecuteMsg {
    /// Adds one to the counter.
    Increment {},
    /// Sets the counter to the given value.
    Reset { counter_value: u64 },
}

/// The questions that `query` answers.
#[derive(Clone, Copy, Debug, PartialEq, Eq, Structural)]
pub enum QueryMsg {
    /// Asks for the counter's value.
    Value {},
}

/// The answer to `QueryMsg::Value`.
#[derive(Clone, Copy, Debug, PartialEq, Eq, Structural)]
pub struct ValueResp {
    pub value: u64,
}

} // verus!
