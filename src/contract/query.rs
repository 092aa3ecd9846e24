//! Handlers that read the counter.
use crate::error::ContractError;
use crate::msg::ValueResp;
use crate::state::{garbled_counter, holds_counter, lacks_counter, load_counter, storage_entries};
use cosmwasm_std::MemoryStorage;
use vstd::prelude::*;

verus! {

/// What a read of store `m` returns: `NotFound` where no counter was stored,
/// a storage error where the stored bytes are not a `u64`, and the stored
/// value where there is one.
pub open spec fn value_outcome(m: Map<Seq<u8>, Seq<u8>>, r: Result<ValueResp, ContractError>) -> bool {
    &&& lacks_counter(m) ==> r is Err && r->Err_0 is NotFound
    &&& garbled_counter(m) ==> r is Err && r->Err_0 is Std
    &&& forall|n: u64| #[trigger] holds_counter(m, n) ==> r == Ok::<ValueResp, ContractError>(ValueResp { value: n })
}

/// Answers with the stored counter.
pub fn value(storage: &MemoryStorage) -> (r: Result<ValueResp, ContractError>)
    ensures
        value_outcome(storage_entries(*storage), r),
{
    match load_counter(storage) {
        Ok(value) => Ok(ValueResp { value }),
        Err(e) => Err(e),
    }
}

} // verus!
