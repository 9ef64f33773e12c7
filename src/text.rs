use vstd::prelude::*;
use vstd::string::*;

verus! {

/// The character of a decimal digit.
pub open spec fn digit(d: int) -> char {
    seq!['0', '1', '2', '3', '4', '5', '6', '7', '8', '9'][d]
}

/// The decimal text of `n`: its digits, most significant first, with no sign
/// and no leading zero.
pub open spec fn decimal(n: nat) -> Seq<char>
    decreases n,
{
    if n < 10 {
        seq![digit(n as int)]
    } else {
        decimal(n / 10).push(digit((n % 10) as int))
    }
}

pub open spec fn is_digit(c: char) -> bool {
    '0' <= c && c <= '9'
}

/// The number that a run of decimal digits writes.
pub open spec fn digits_value(s: Seq<char>) -> nat
    decreases s.len(),
{
    if s.len() == 0 {
        0
    } else {
        digits_value(s.drop_last()) * 10 + ((s.last() as u32 - '0' as u32) as nat)
    }
}

/// What an amount written in text stands for: an optional `+`, then one or
/// more decimal digits whose value fits in 128 bits.
pub open spec fn amount_of(s: Seq<char>) -> Option<u128> {
    let t = if s.len() > 0 && s[0] == '+' {
        s.drop_first()
    } else {
        s
    };
    if t.len() > 0 && (forall|i: int| 0 <= i < t.len() ==> is_digit(#[trigger] t[i]))
        && digits_value(t) <= u128::MAX {
        Some(digits_value(t) as u128)
    } else {
        None
    }
}

/// Relies on u128's `Display` (through `ToString`): plain decimal digits.
#[verifier::external_body]
fn u128_text(n: u128) -> (r: String)
    ensures
        r@ == decimal(n as nat),
{
    n.to_string()
}

/// The decimal text of an amount.
pub fn amount_text(n: u128) -> (r: String)
    ensures
        r@ == decimal(n as nat),
{
    u128_text(n)
}

/// Relies on `cosmwasm_std::Uint128::from_str`, which parses through
/// `u128::from_str`: an optional `+` and decimal digits, in range.
#[verifier::external_body]
fn parse_uint128(s: &str) -> (r: Option<u128>)
    ensures
        r == amount_of(s@),
{
    <cosmwasm_std::Uint128 as std::str::FromStr>::from_str(s).ok().map(|u| u.u128())
}

/// Reads an amount of tokens from its decimal text.
pub fn parse_amount(s: &String) -> (r: Option<u128>)
    ensures
        r == amount_of(s@),
{
    parse_uint128(s.as_str())
}

/// The denom of the liquidity shares of a pool.
pub open spec fn lp_denom_of(pool_id: u64) -> Seq<char> {
    "gamm/pool/"@ + decimal(pool_id as nat)
}

/// The denom of the liquidity shares of `pool_id`: `gamm/pool/<id>`.
pub fn get_lp_denom(pool_id: u64) -> (r: String)
    ensures
        r@ == lp_denom_of(pool_id),
{
    let mut s = String::from_str("gamm/pool/");
    let n = u128_text(pool_id as u128);
    s.append(n.as_str());
    s
}

} // verus!
