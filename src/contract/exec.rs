//! Handlers that change the counter.
use crate::error::ContractError;
use crate::response::{change_attributes, change_response, response_attributes, response_is_bare};
use crate::state::{
    garbled_counter, holds_counter, lacks_counter, load_counter, save_counter, saved_counter,
    storage_entries,
};
use cosmwasm_std::{MemoryStorage, Response};
use vstd::prelude::*;

verus! {

/// The counter after an increment: one more, except that at `u64::MAX` the
/// overflow is discarded and the value stays as it was.
pub open spec fn incremented(n: u64) -> u64 {
    if n < u64::MAX {
        (n + 1) as u64
    } else {
        n
    }
}

/// What an increment from store `m` to store `m2`, asked by `sender`, returns:
/// `NotFound` where no counter was stored, a storage error where the stored
/// bytes are not a `u64` (the store unchanged either way); from a counter `n`,
/// success, with `incremented(n)` saved and reported.
pub open spec fn increment_outcome(
    m: Map<Seq<u8>, Seq<u8>>,
    m2: Map<Seq<u8>, Seq<u8>>,
    sender: Seq<char>,
    r: Result<Response, ContractError>,
) -> bool {
    &&& lacks_counter(m) ==> r is Err && r->Err_0 is NotFound && m2 == m
    &&& garbled_counter(m) ==> r is Err && r->Err_0 is Std && m2 == m
    &&& forall|n: u64| #[trigger]
        holds_counter(m, n) ==> {
            &&& r is Ok
            &&& saved_counter(m, m2, incremented(n))
            &&& response_attributes(r->Ok_0) == change_attributes("poke"@, sender, incremented(n))
            &&& response_is_bare(r->Ok_0)
        }
}

/// What a reset to `k` from store `m` to store `m2`, asked by `sender`,
/// returns: whatever was stored before and whoever the sender is, success,
/// with `k` saved and reported.
pub open spec fn reset_outcome(
    m: Map<Seq<u8>, Seq<u8>>,
    m2: Map<Seq<u8>, Seq<u8>>,
    sender: Seq<char>,
    k: u64,
    r: Result<Response, ContractError>,
) -> bool {
    &&& r is Ok
    &&& saved_counter(m, m2, k)
    &&& response_attributes(r->Ok_0) == change_attributes("reset"@, sender, k)
    &&& response_is_bare(r->Ok_0)
}

/// Adds one to the stored counter; at `u64::MAX` it reads the counter again
/// and keeps that value.
pub fn increment(storage: &mut MemoryStorage, sender: &str) -> (r: Result<Response, ContractError>)
    ensures
        increment_outcome(storage_entries(*old(storage)), storage_entries(*final(storage)), sender@, r),
{
    let current = match load_counter(storage) {
        Ok(v) => v,
        Err(e) => return Err(e),
    };
    let counter = match current.checked_add(1) {
        Some(next) => next,
        None => match load_counter(storage) {
            Ok(v) => v,
            Err(e) => return Err(e),
        },
    };
    match save_counter(storage, counter) {
        Ok(()) => {},
        Err(e) => return Err(e),
    }
    proof {
        reveal_strlit("poke");
    }
    Ok(change_response("poke", sender, counter))
}

/// Sets the counter to `counter_value`, whoever the sender is.
pub fn reset(storage: &mut MemoryStorage, sender: &str, counter_value: u64) -> (r: Result<
    Response,
    ContractError,
>)
    ensures
        reset_outcome(
            storage_entries(*old(storage)),
            storage_entries(*final(storage)),
            sender@,
            counter_value,
            r,
        ),
{
    match save_counter(storage, counter_value) {
        Ok(()) => {},
        Err(e) => return Err(e),
    }
    Ok(change_response("reset", sender, counter_value))
}

} // verus!
