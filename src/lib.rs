//! A counter contract: one persisted `u64`, set by `instantiate`, changed by
//! `execute` and read by `query`.
use crate::contract::exec::{increment, increment_outcome, incremented, reset, reset_outcome};
use crate::contract::query::{value, value_outcome};
use crate::error::ContractError;
use crate::msg::{ExecuteMsg, InstantiateMsg, QueryMsg, ValueResp};
use crate::response::{change_attributes, decimal, empty_response, response_attributes, response_is_bare};
use crate::state::{
    counter_key, holds_counter, json_of_u64, lacks_counter, save_counter, saved_counter,
    storage_entries,
};
use cosmwasm_std::{MemoryStorage, Response};
use vstd::prelude::*;

pub mod contract;
pub mod error;
pub mod msg;
pub mod response;
pub mod state;

verus! {

/// What `instantiate` with `n` from store `m` to store `m2` returns: success,
/// with `n` saved and a response without attributes, over any earlier value.
pub open spec fn instantiate_outcome(
    m: Map<Seq<u8>, Seq<u8>>,
    m2: Map<Seq<u8>, Seq<u8>>,
    n: u64,
    r: Result<Response, ContractError>,
) -> bool {
    &&& r is Ok
    &&& saved_counter(m, m2, n)
    &&& response_attributes(r->Ok_0) == Seq::<(Seq<char>, Seq<char>)>::empty()
    &&& response_is_bare(r->Ok_0)
}

/// Stores the first value of the counter. The response has no attributes.
pub fn instantiate(storage: &mut MemoryStorage, msg: InstantiateMsg) -> (r: Result<
    Response,
    ContractError,
>)
    ensures
        instantiate_outcome(
            storage_entries(*old(storage)),
            storage_entries(*final(storage)),
            msg.counter_value,
            r,
        ),
{
    match save_counter(storage, msg.counter_value) {
        Ok(()) => Ok(empty_response()),
        Err(e) => Err(e),
    }
}

/// Hands an `ExecuteMsg` to its handler; `sender` is the caller's address.
pub fn execute(storage: &mut MemoryStorage, sender: &str, msg: ExecuteMsg) -> (r: Result<
    Response,
    ContractError,
>)
    ensures
        match msg {
            ExecuteMsg::Increment {} => increment_outcome(
                storage_entries(*old(storage)),
                storage_entries(*final(storage)),
                sender@,
                r,
            ),
            ExecuteMsg::Reset { counter_value } => reset_outcome(
                storage_entries(*old(storage)),
                storage_entries(*final(storage)),
                sender@,
                counter_value,
                r,
            ),
        },
{
    match msg {
        ExecuteMsg::Increment {} => increment(storage, sender),
        ExecuteMsg::Reset { counter_value } => reset(storage, sender, counter_value),
    }
}

/// Hands a `QueryMsg` to its handler.
pub fn query(storage: &MemoryStorage, msg: QueryMsg) -> (r: Result<ValueResp, ContractError>)
    ensures
        match msg {
            QueryMsg::Value {} => value_outcome(storage_entries(*storage), r),
        },
{
    match msg {
        QueryMsg::Value {} => value(storage),
    }
}

/// After `instantiate` with `n`, `query(Value)` answers `n`.
pub proof fn lemma_query_after_instantiate(
    m: Map<Seq<u8>, Seq<u8>>,
    m2: Map<Seq<u8>, Seq<u8>>,
    n: u64,
    ri: Result<Response, ContractError>,
    r: Result<ValueResp, ContractError>,
)
    requires
        instantiate_outcome(m, m2, n, ri),
        value_outcome(m2, r),
    ensures
        r == Ok::<ValueResp, ContractError>(ValueResp { value: n }),
{
}

/// An increment from a counter `n < u64::MAX` succeeds, leaves `n + 1`
/// stored and reports the action, the sender and `n + 1`.
pub proof fn lemma_increment_below_max(
    m: Map<Seq<u8>, Seq<u8>>,
    m2: Map<Seq<u8>, Seq<u8>>,
    sender: Seq<char>,
    n: u64,
    r: Result<Response, ContractError>,
)
    requires
        holds_counter(m, n),
        n < u64::MAX,
        increment_outcome(m, m2, sender, r),
    ensures
        r is Ok,
        m2 == m.insert(counter_key(), json_of_u64((n + 1) as u64)),
        holds_counter(m2, (n + 1) as u64),
        response_attributes(r->Ok_0) == seq![
            ("action"@, "poke"@),
            ("sender"@, sender),
            ("counter"@, decimal((n + 1) as nat)),
        ],
{
    assert(incremented(n) == n + 1);
}

/// An increment from a counter at `u64::MAX` succeeds and the counter stays
/// at `u64::MAX`: the overflow is discarded. Where the stored bytes were the
/// counter's own JSON, the store is as it was.
pub proof fn lemma_increment_at_max(
    m: Map<Seq<u8>, Seq<u8>>,
    m2: Map<Seq<u8>, Seq<u8>>,
    sender: Seq<char>,
    r: Result<Response, ContractError>,
)
    requires
        holds_counter(m, u64::MAX),
        increment_outcome(m, m2, sender, r),
    ensures
        r is Ok,
        holds_counter(m2, u64::MAX),
        response_attributes(r->Ok_0) == change_attributes("poke"@, sender, u64::MAX),
        m[counter_key()] == json_of_u64(u64::MAX) ==> m2 == m,
{
    assert(incremented(u64::MAX) == u64::MAX);
    if m[counter_key()] == json_of_u64(u64::MAX) {
        assert(m2 =~= m);
    }
}

/// A reset to `k`, from any store and by any sender, succeeds, and is followed
/// by `query(Value)` answering `k`.
pub proof fn lemma_query_after_reset(
    m: Map<Seq<u8>, Seq<u8>>,
    m2: Map<Seq<u8>, Seq<u8>>,
    sender: Seq<char>,
    k: u64,
    rr: Result<Response, ContractError>,
    r: Result<ValueResp, ContractError>,
)
    requires
        reset_outcome(m, m2, sender, k, rr),
        value_outcome(m2, r),
    ensures
        rr is Ok,
        r == Ok::<ValueResp, ContractError>(ValueResp { value: k }),
{
}

/// Before any value is stored, `query(Value)` fails with `NotFound`.
pub proof fn lemma_query_before_instantiate(
    m: Map<Seq<u8>, Seq<u8>>,
    r: Result<ValueResp, ContractError>,
)
    requires
        lacks_counter(m),
        value_outcome(m, r),
    ensures
        r is Err && r->Err_0 is NotFound,
{
}

} // verus!
