//! The response of an `execute` call and the attributes that it carries.
use cosmwasm_std::Response;
use vstd::prelude::*;
use vstd::string::StringExecFns;

verus! {

#[verifier::external_type_specification]
#[verifier::external_body]
pub struct ExEmpty(cosmwasm_std::Empty);

#[verifier::external_type_specification]
#[verifier::external_body]
#[verifier::reject_recursive_types(T)]
pub struct ExResponse<T>(cosmwasm_std::Response<T>);

/// The attributes of a response, as (key, value) pairs in order.
pub uninterp spec fn response_attributes(r: Response) -> Seq<(Seq<char>, Seq<char>)>;

/// The response carries no messages, no events and no data.
pub uninterp spec fn response_is_bare(r: Response) -> bool;

/// The decimal digit for `d < 10`.
pub open spec fn digit_char(d: nat) -> char {
    if d == 0 {
        '0'
    } else if d == 1 {
        '1'
    } else if d == 2 {
        '2'
    } else if d == 3 {
        '3'
    } else if d == 4 {
        '4'
    } else if d == 5 {
        '5'
    } else if d == 6 {
        '6'
    } else if d == 7 {
        '7'
    } else if d == 8 {
        '8'
    } else {
        '9'
    }
}

/// The decimal notation of `n`, without leading zeros.
pub open spec fn decimal(n: nat) -> Seq<char>
    decreases n,
{
    if n < 10 {
        seq![digit_char(n)]
    } else {
        decimal(n / 10).push(digit_char(n % 10))
    }
}

/// The attributes of a change of the counter: what was done, by whom, and the
/// value that the counter has afterwards.
pub open spec fn change_attributes(action: Seq<char>, sender: Seq<char>, value: u64) -> Seq<
    (Seq<char>, Seq<char>),
> {
    seq![("action"@, action), ("sender"@, sender), ("counter"@, decimal(value as nat))]
}

/// Relies on `cosmwasm_std::Response::new`: a response with no attributes,
/// messages, events or data.
#[verifier::external_body]
pub(crate) fn empty_response() -> (r: Response)
    ensures
        response_attributes(r) == Seq::<(Seq<char>, Seq<char>)>::empty(),
        response_is_bare(r),
{
    Response::new()
}

/// Relies on `cosmwasm_std::Response::add_attribute`: appends the pair to the
/// attributes and touches no other field (`Attribute::new` rejects keys that
/// start with `_`).
#[verifier::external_body]
pub(crate) fn add_attribute(resp: Response, key: &str, value: &str) -> (r: Response)
    requires
        key@.len() == 0 || key@[0] != '_',
    ensures
        response_attributes(r) == response_attributes(resp).push((key@, value@)),
        response_is_bare(r) == response_is_bare(resp),
{
    resp.add_attribute(key, value)
}

/// The one-character text of a decimal digit `d < 10`.
fn digit_str(d: u64) -> (r: &'static str)
    requires
        d < 10,
    ensures
        r@ == seq![digit_char(d as nat)],
{
    proof {
        reveal_strlit("0");
        reveal_strlit("1");
        reveal_strlit("2");
        reveal_strlit("3");
        reveal_strlit("4");
        reveal_strlit("5");
        reveal_strlit("6");
        reveal_strlit("7");
        reveal_strlit("8");
        reveal_strlit("9");
    }
    if d == 0 {
        "0"
    } else if d == 1 {
        "1"
    } else if d == 2 {
        "2"
    } else if d == 3 {
        "3"
    } else if d == 4 {
        "4"
    } else if d == 5 {
        "5"
    } else if d == 6 {
        "6"
    } else if d == 7 {
        "7"
    } else if d == 8 {
        "8"
    } else {
        "9"
    }
}

/// Appends the decimal notation of `n` to `s`.
fn append_decimal(s: &mut String, n: u64)
    ensures
        final(s)@ == old(s)@ + decimal(n as nat),
    decreases n,
{
    if n >= 10 {
        append_decimal(s, n / 10);
    }
    s.append(digit_str(n % 10));
    assert(s@ =~= old(s)@ + decimal(n as nat));
}

/// Builds the response of a change of the counter.
pub fn change_response(action: &str, sender: &str, value: u64) -> (r: Response)
    ensures
        response_attributes(r) == change_attributes(action@, sender@, value),
        response_is_bare(r),
{
    let mut digits = String::new();
    append_decimal(&mut digits, value);
    assert(digits@ =~= decimal(value as nat));
    let key_action = "action";
    let key_sender = "sender";
    let key_counter = "counter";
    proof {
        reveal_strlit("action");
        reveal_strlit("sender");
        reveal_strlit("counter");
    }
    let r = empty_response();
    let r = add_attribute(r, key_action, action);
    let r = add_attribute(r, key_sender, sender);
    let r = add_attribute(r, key_counter, digits.as_str());
    assert(response_attributes(r) =~= change_attributes(action@, sender@, value));
    r
}

} // verus!
