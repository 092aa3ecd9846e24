use cosmwasm_std::{MemoryStorage, Response, Storage};
use counting_contract::contract::exec::{increment, reset};
use counting_contract::contract::query::value;
use counting_contract::error::ContractError;
use counting_contract::msg::{ExecuteMsg, InstantiateMsg, QueryMsg, ValueResp};
use counting_contract::response::change_response;
use counting_contract::state::{load_counter, save_counter};
use counting_contract::{execute, instantiate, query};

fn attrs(resp: &Response) -> Vec<(String, String)> {
    resp.attributes
        .iter()
        .map(|a| (a.key.clone(), a.value.clone()))
        .collect()
}

fn pairs(items: &[(&str, &str)]) -> Vec<(String, String)> {
    items
        .iter()
        .map(|(k, v)| (k.to_string(), v.to_string()))
        .collect()
}

fn started(n: u64) -> MemoryStorage {
    let mut store = MemoryStorage::new();
    instantiate(&mut store, InstantiateMsg { counter_value: n }).unwrap();
    store
}

#[test]
fn test_query_value() {
    let store = started(1);
    let resp = query(&store, QueryMsg::Value {}).unwrap();
    assert_eq!(resp, ValueResp { value: 1 });
}

#[test]
fn test_increment() {
    let mut store = started(0);
    execute(&mut store, "sender", ExecuteMsg::Increment {}).unwrap();
    let resp = query(&store, QueryMsg::Value {}).unwrap();
    assert_eq!(resp, ValueResp { value: 1 });
}

#[test]
fn test_reset() {
    let mut store = started(0);
    execute(&mut store, "sender", ExecuteMsg::Reset { counter_value: 5 }).unwrap();
    let resp = query(&store, QueryMsg::Value {}).unwrap();
    assert_eq!(resp, ValueResp { value: 5 });
}

#[test]
fn instantiate_then_query_any_value() {
    for n in [0u64, 7, 1_000_000, u64::MAX] {
        let store = started(n);
        assert_eq!(query(&store, QueryMsg::Value {}).unwrap(), ValueResp { value: n });
    }
}

#[test]
fn instantiate_has_no_attributes() {
    let mut store = MemoryStorage::new();
    let resp = instantiate(&mut store, InstantiateMsg { counter_value: 3 }).unwrap();
    assert!(resp.attributes.is_empty());
}

#[test]
fn increment_reports_action_sender_and_value() {
    let mut store = started(41);
    let resp = execute(&mut store, "alice", ExecuteMsg::Increment {}).unwrap();
    assert_eq!(
        attrs(&resp),
        pairs(&[("action", "poke"), ("sender", "alice"), ("counter", "42")])
    );
    assert_eq!(value(&store).unwrap(), ValueResp { value: 42 });
}

#[test]
fn increment_at_max_keeps_value() {
    let mut store = started(u64::MAX);
    let resp = increment(&mut store, "bob").unwrap();
    assert_eq!(
        attrs(&resp),
        pairs(&[
            ("action", "poke"),
            ("sender", "bob"),
            ("counter", "18446744073709551615"),
        ])
    );
    assert_eq!(value(&store).unwrap(), ValueResp { value: u64::MAX });
}

#[test]
fn increment_one_below_max_reaches_max() {
    let mut store = started(u64::MAX - 1);
    increment(&mut store, "bob").unwrap();
    assert_eq!(load_counter(&store).unwrap(), u64::MAX);
}

#[test]
fn reset_by_any_sender() {
    for (sender, k) in [("owner", 9u64), ("stranger", 0), ("", u64::MAX)] {
        let mut store = started(123);
        let resp = reset(&mut store, sender, k).unwrap();
        let digits = k.to_string();
        assert_eq!(
            attrs(&resp),
            pairs(&[("action", "reset"), ("sender", sender), ("counter", digits.as_str())])
        );
        assert_eq!(value(&store).unwrap(), ValueResp { value: k });
    }
}

#[test]
fn three_increments_from_zero() {
    let mut store = started(0);
    for _ in 0..3 {
        execute(&mut store, "sender", ExecuteMsg::Increment {}).unwrap();
    }
    assert_eq!(query(&store, QueryMsg::Value {}).unwrap(), ValueResp { value: 3 });
}

#[test]
fn reset_after_instantiate_zero() {
    let mut store = started(0);
    execute(&mut store, "sender", ExecuteMsg::Reset { counter_value: 5 }).unwrap();
    assert_eq!(query(&store, QueryMsg::Value {}).unwrap(), ValueResp { value: 5 });
}

#[test]
fn query_before_instantiate_is_not_found() {
    let store = MemoryStorage::new();
    assert!(matches!(query(&store, QueryMsg::Value {}), Err(ContractError::NotFound)));
}

#[test]
fn increment_before_instantiate_is_not_found() {
    let mut store = MemoryStorage::new();
    let r = execute(&mut store, "sender", ExecuteMsg::Increment {});
    assert!(matches!(r, Err(ContractError::NotFound)));
    assert!(matches!(load_counter(&store), Err(ContractError::NotFound)));
}

#[test]
fn reset_before_instantiate_stores_value() {
    let mut store = MemoryStorage::new();
    execute(&mut store, "sender", ExecuteMsg::Reset { counter_value: 8 }).unwrap();
    assert_eq!(query(&store, QueryMsg::Value {}).unwrap(), ValueResp { value: 8 });
}

#[test]
fn save_then_load_round_trip() {
    let mut store = MemoryStorage::new();
    save_counter(&mut store, 77).unwrap();
    assert_eq!(load_counter(&store).unwrap(), 77);
    save_counter(&mut store, 0).unwrap();
    assert_eq!(load_counter(&store).unwrap(), 0);
}

#[test]
fn stored_bytes_are_json_under_counter_key() {
    let store = started(12);
    assert_eq!(store.get(b"counter"), Some(b"12".to_vec()));
}

#[test]
fn corrupt_counter_is_a_storage_error() {
    let mut store = MemoryStorage::new();
    store.set(b"counter", b"not json");
    assert!(matches!(query(&store, QueryMsg::Value {}), Err(ContractError::Std(_))));
}

#[test]
fn change_response_writes_decimal_digits() {
    for (n, text) in [(0u64, "0"), (10, "10"), (1234567, "1234567")] {
        let resp = change_response("poke", "s", n);
        assert_eq!(
            attrs(&resp),
            pairs(&[("action", "poke"), ("sender", "s"), ("counter", text)])
        );
    }
}

#[test]
fn responses_carry_only_attributes() {
    let mut store = MemoryStorage::new();
    let responses = [
        instantiate(&mut store, InstantiateMsg { counter_value: 2 }).unwrap(),
        execute(&mut store, "sender", ExecuteMsg::Increment {}).unwrap(),
        execute(&mut store, "sender", ExecuteMsg::Reset { counter_value: 4 }).unwrap(),
    ];
    for resp in responses.iter() {
        assert!(resp.messages.is_empty());
        assert!(resp.events.is_empty());
        assert!(resp.data.is_none());
    }
}

#[test]
fn garbled_counter_is_left_alone_by_increment() {
    let mut store = MemoryStorage::new();
    store.set(b"counter", b"\"text\"");
    let r = increment(&mut store, "sender");
    assert!(matches!(r, Err(ContractError::Std(_))));
    assert_eq!(store.get(b"counter"), Some(b"\"text\"".to_vec()));
}

#[test]
fn counter_with_leading_space_reads_as_number() {
    let mut store = MemoryStorage::new();
    store.set(b"counter", b" 12");
    assert_eq!(value(&store).unwrap(), ValueResp { value: 12 });
    let resp = increment(&mut store, "sender").unwrap();
    assert_eq!(
        attrs(&resp),
        pairs(&[("action", "poke"), ("sender", "sender"), ("counter", "13")])
    );
    assert_eq!(store.get(b"counter"), Some(b"13".to_vec()));
}

#[test]
fn increments_report_each_new_value() {
    let mut store = started(0);
    for expected in ["1", "2", "3"] {
        let resp = execute(&mut store, "sender", ExecuteMsg::Increment {}).unwrap();
        assert_eq!(
            attrs(&resp),
            pairs(&[("action", "poke"), ("sender", "sender"), ("counter", expected)])
        );
    }
}

#[test]
fn instantiate_over_existing_counter() {
    let mut store = started(9);
    instantiate(&mut store, InstantiateMsg { counter_value: 1 }).unwrap();
    assert_eq!(query(&store, QueryMsg::Value {}).unwrap(), ValueResp { value: 1 });
}
