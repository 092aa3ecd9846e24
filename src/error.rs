//! Errors that the contract's entry points report.
use vstd::prelude::*;

verus! {

#[verifier::external_type_specification]
#[verifier::external_body]
pub struct ExStdError(cosmwasm_std::StdError);

/// What can go wrong in an entry point.
#[derive(Debug)]
pub enum ContractError {
    /// The counter was read before it was ever stored.
    NotFound,
    /// The storage layer failed to encode or decode the counter.
    Std(cosmwasm_std::StdError),
}

} // verus!
