//! The persisted state: one `u64` under a fixed storage key, kept by
//! `cw_storage_plus::Item` in a `cosmwasm_std::MemoryStorage`.
use crate::error::ContractError;
use cosmwasm_std::{MemoryStorage, StdError};
use cw_storage_plus::Item;
use vstd::prelude::*;
use vstd::string::StringSliceAdditionalSpecFns;

verus! {

#[verifier::external_type_specification]
#[verifier::external_body]
pub struct ExMemoryStorage(cosmwasm_std::MemoryStorage);

/// The key/value pairs that a `MemoryStorage` holds.
pub uninterp spec fn storage_entries(s: MemoryStorage) -> Map<Seq<u8>, Seq<u8>>;

/// What `cosmwasm_std::from_json::<u64>` makes of some bytes: the number, or
/// `None` where they are not the JSON of a `u64`.
pub uninterp spec fn parsed_u64(b: Seq<u8>) -> Option<u64>;

/// The ASCII byte of a decimal digit `d < 10`.
pub open spec fn digit_byte(d: nat) -> u8 {
    (48 + d) as u8
}

/// The JSON form of a `u64`: its decimal digits in ASCII, without leading
/// zeros.
pub open spec fn json_of_u64(v: u64) -> Seq<u8>
    decreases v,
{
    if v < 10 {
        seq![digit_byte(v as nat)]
    } else {
        json_of_u64((v / 10) as u64).push(digit_byte((v % 10) as nat))
    }
}

/// The name of the storage slot that holds the counter.
pub const COUNTER_KEY: &'static str = "counter";

/// The storage key of the counter: the UTF-8 bytes of its name.
pub open spec fn counter_key() -> Seq<u8> {
    COUNTER_KEY.spec_bytes()
}

/// The store holds the counter, with value `v`.
pub open spec fn holds_counter(m: Map<Seq<u8>, Seq<u8>>, v: u64) -> bool {
    m.contains_key(counter_key()) && parsed_u64(m[counter_key()]) == Some(v)
}

/// The counter was never stored.
pub open spec fn lacks_counter(m: Map<Seq<u8>, Seq<u8>>) -> bool {
    !m.contains_key(counter_key())
}

/// Something is stored under the counter's key, but it is not a `u64`.
pub open spec fn garbled_counter(m: Map<Seq<u8>, Seq<u8>>) -> bool {
    m.contains_key(counter_key()) && parsed_u64(m[counter_key()]) is None
}

/// `m2` is `m` with the counter saved as `v`: its key holds the JSON of `v`,
/// which reads back as `v`, and no other key changed.
pub open spec fn saved_counter(m: Map<Seq<u8>, Seq<u8>>, m2: Map<Seq<u8>, Seq<u8>>, v: u64) -> bool {
    m2 == m.insert(counter_key(), json_of_u64(v)) && holds_counter(m2, v)
}

/// Relies on `cw_storage_plus::Item::<u64>::may_load`: `Ok(None)` where the key
/// is absent, else `from_json` of the stored bytes.
#[verifier::external_body]
fn item_may_load(store: &MemoryStorage, key: &'static str) -> (r: Result<Option<u64>, StdError>)
    ensures
        !storage_entries(*store).contains_key(key.spec_bytes()) ==> r is Ok && r->Ok_0 is None,
        storage_entries(*store).contains_key(key.spec_bytes()) ==> (r is Ok <==> parsed_u64(
            storage_entries(*store)[key.spec_bytes()],
        ) is Some),
        storage_entries(*store).contains_key(key.spec_bytes()) && r is Ok ==> r->Ok_0 == parsed_u64(
            storage_entries(*store)[key.spec_bytes()],
        ),
{
    Item::<u64>::new(key).may_load(store)
}

/// Relies on `cw_storage_plus::Item::<u64>::save`: `to_json_vec` of a `u64`
/// always succeeds with its decimal digits (never empty, so
/// `MemoryStorage::set` does not panic), and `set` inserts them under the key;
/// `from_json` reads them back as the same number.
#[verifier::external_body]
fn item_save(store: &mut MemoryStorage, key: &'static str, v: u64) -> (r: Result<(), StdError>)
    ensures
        r is Ok,
        storage_entries(*final(store)) == storage_entries(*old(store)).insert(
            key.spec_bytes(),
            json_of_u64(v),
        ),
        parsed_u64(storage_entries(*final(store))[key.spec_bytes()]) == Some(v),
{
    Item::<u64>::new(key).save(store, &v)
}

/// Reads the counter: `NotFound` where it was never stored, a storage error
/// where the stored bytes are not a `u64`.
pub fn load_counter(store: &MemoryStorage) -> (r: Result<u64, ContractError>)
    ensures
        lacks_counter(storage_entries(*store)) ==> r is Err && r->Err_0 is NotFound,
        garbled_counter(storage_entries(*store)) ==> r is Err && r->Err_0 is Std,
        forall|v: u64| #[trigger] holds_counter(storage_entries(*store), v) ==> r == Ok::<u64, ContractError>(v),
{
    match item_may_load(store, COUNTER_KEY) {
        Ok(Some(v)) => Ok(v),
        Ok(None) => Err(ContractError::NotFound),
        Err(e) => Err(ContractError::Std(e)),
    }
}

/// Stores `v` as the counter.
pub fn save_counter(store: &mut MemoryStorage, v: u64) -> (r: Result<(), ContractError>)
    ensures
        r is Ok,
        saved_counter(storage_entries(*old(store)), storage_entries(*final(store)), v),
{
    match item_save(store, COUNTER_KEY, v) {
        Ok(()) => Ok(()),
        Err(e) => Err(ContractError::Std(e)),
    }
}

} // verus!
