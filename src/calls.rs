use vstd::prelude::*;
use vstd::string::*;
use crate::common::{Coin, coins_view};
use crate::error::ContractError;
use crate::text::{amount_of, parse_amount};

verus! {

/// One operation issued to the chain's modules or to another contract.
pub enum Call {
    /// Join a pool with one token.
    JoinPool {
        sender: String,
        pool_id: u64,
        amount: String,
        denom: String,
        share_out_min_amount: String,
    },
    /// Exit a pool position into one denom.
    ExitPool {
        sender: String,
        pool_id: u64,
        shares: String,
        denom_out: String,
        min_tokens: String,
    },
    /// Swap an exact amount in through one pool.
    Swap {
        sender: String,
        pool_id: u64,
        amount_in: String,
        denom_in: String,
        amount_out_min: String,
        denom_out: String,
    },
    /// Lock tokens for a duration in seconds.
    LockTokens { owner: String, duration: u64, amount: String, denom: String },
    /// Begin unlocking a lock.
    BeginUnlocking { owner: String, lock_id: u64 },
    /// Lock tokens and delegate them to a validator.
    LockAndDelegate { sender: String, amount: String, denom: String, validator: String },
    /// Undelegate a delegated lock.
    Undelegate { sender: String, lock_id: u64 },
    /// Begin unbonding an undelegated lock.
    UnbondLock { sender: String, lock_id: u64 },
    /// Send coins to an address.
    Transfer { receiver: String, coins: Vec<Coin> },
    /// Create a lock wallet with `admin` as its admin, sending no funds.
    InstantiateWallet { admin: String, code_id: u64 },
    /// Execute a lock wallet operation, sending `funds` along.
    ExecuteWallet { wallet: String, msg: crate::wallet::ExecuteMsg, funds: Vec<Coin> },
}

/// A call, and the tag under which its outcome comes back, if it is tracked.
pub struct SubCall<T> {
    pub call: Call,
    pub reply: Option<T>,
}

/// The calls that a step issues, in order.
pub struct Response<T> {
    pub calls: Vec<SubCall<T>>,
}

impl<T> Response<T> {
    pub fn new() -> (r: Self)
        ensures
            r.calls@.len() == 0,
    {
        Response { calls: Vec::new() }
    }

    /// A call whose outcome this contract does not wait for.
    pub fn add_message(&mut self, call: Call)
        ensures
            final(self).calls@ == old(self).calls@.push(SubCall { call, reply: None }),
    {
        self.calls.push(SubCall { call, reply: None });
    }

    /// A call whose successful outcome comes back under `tag`.
    pub fn add_submessage(&mut self, call: Call, tag: T)
        ensures
            final(self).calls@ == old(self).calls@.push(SubCall { call, reply: Some(tag) }),
    {
        self.calls.push(SubCall { call, reply: Some(tag) });
    }
}

/// How many of the calls are tracked.
pub open spec fn tracked_count<T>(s: Seq<SubCall<T>>) -> nat
    decreases s.len(),
{
    if s.len() == 0 {
        0
    } else {
        tracked_count(s.drop_last()) + if s.last().reply is Some { 1nat } else { 0nat }
    }
}

/// How many of the calls are transfers.
pub open spec fn transfer_count<T>(s: Seq<SubCall<T>>) -> nat
    decreases s.len(),
{
    if s.len() == 0 {
        0
    } else {
        transfer_count(s.drop_last()) + if s.last().call is Transfer { 1nat } else { 0nat }
    }
}

/// A list with no transfer counts none.
pub proof fn lemma_no_transfer<T>(s: Seq<SubCall<T>>)
    requires
        forall|i: int| 0 <= i < s.len() ==> !((#[trigger] s[i]).call is Transfer),
    ensures
        transfer_count(s) == 0,
    decreases s.len(),
{
    if s.len() > 0 {
        let t = s.drop_last();
        assert forall|i: int| 0 <= i < t.len() implies !((#[trigger] t[i]).call is Transfer) by {
            assert(t[i] == s[i]);
        }
        lemma_no_transfer(t);
    }
}

/// Some call is tracked under `tag`.
pub open spec fn awaits<T>(s: Seq<SubCall<T>>, tag: T) -> bool {
    exists|i: int| 0 <= i < s.len() && s[i].reply == Some(tag)
}

/// Some call of the list creates a lock wallet.
pub open spec fn instantiates<T>(s: Seq<SubCall<T>>) -> bool {
    exists|i: int| 0 <= i < s.len() && s[i].call is InstantiateWallet
}

pub open spec fn is_join(
    c: Call,
    sender: Seq<char>,
    pool_id: u64,
    amount: Seq<char>,
    denom: Seq<char>,
    share_out_min_amount: Seq<char>,
) -> bool {
    match c {
        Call::JoinPool { sender: s, pool_id: p, amount: a, denom: d, share_out_min_amount: m } => {
            s@ == sender && p == pool_id && a@ == amount && d@ == denom
                && m@ == share_out_min_amount
        },
        _ => false,
    }
}

pub open spec fn is_exit(
    c: Call,
    sender: Seq<char>,
    pool_id: u64,
    shares: Seq<char>,
    denom_out: Seq<char>,
    min_tokens: Seq<char>,
) -> bool {
    match c {
        Call::ExitPool { sender: s, pool_id: p, shares: a, denom_out: d, min_tokens: m } => {
            s@ == sender && p == pool_id && a@ == shares && d@ == denom_out && m@ == min_tokens
        },
        _ => false,
    }
}

pub open spec fn is_swap(
    c: Call,
    sender: Seq<char>,
    pool_id: u64,
    amount_in: Seq<char>,
    denom_in: Seq<char>,
    amount_out_min: Seq<char>,
    denom_out: Seq<char>,
) -> bool {
    match c {
        Call::Swap {
            sender: s,
            pool_id: p,
            amount_in: a,
            denom_in: d,
            amount_out_min: m,
            denom_out: o,
        } => {
            s@ == sender && p == pool_id && a@ == amount_in && d@ == denom_in && m@
                == amount_out_min && o@ == denom_out
        },
        _ => false,
    }
}

pub open spec fn is_lock(
    c: Call,
    owner: Seq<char>,
    duration: u64,
    amount: Seq<char>,
    denom: Seq<char>,
) -> bool {
    match c {
        Call::LockTokens { owner: o, duration: t, amount: a, denom: d } => {
            o@ == owner && t == duration && a@ == amount && d@ == denom
        },
        _ => false,
    }
}

pub open spec fn is_lock_and_delegate(
    c: Call,
    sender: Seq<char>,
    amount: Seq<char>,
    denom: Seq<char>,
    validator: Seq<char>,
) -> bool {
    match c {
        Call::LockAndDelegate { sender: s, amount: a, denom: d, validator: v } => {
            s@ == sender && a@ == amount && d@ == denom && v@ == validator
        },
        _ => false,
    }
}

pub open spec fn is_transfer(c: Call, receiver: Seq<char>, coins: Seq<(Seq<char>, u128)>) -> bool {
    match c {
        Call::Transfer { receiver: r, coins: v } => r@ == receiver && coins_view(v@) == coins,
        _ => false,
    }
}

/// Lock the shares that a join returned: a plain lock for `duration`, or,
/// where a validator is named, a lock that is also delegated to it.
pub open spec fn is_lock_of(
    c: Call,
    owner: Seq<char>,
    duration: u64,
    shares: Seq<char>,
    denom: Seq<char>,
    validator: Option<Seq<char>>,
) -> bool {
    match validator {
        Some(v) => is_lock_and_delegate(c, owner, shares, denom, v),
        None => is_lock(c, owner, duration, shares, denom),
    }
}

/// Counting the tracked calls of a list grown by one call.
pub proof fn lemma_tracked_count_push<T>(s: Seq<SubCall<T>>, x: SubCall<T>)
    ensures
        tracked_count(s.push(x)) == tracked_count(s) + if x.reply is Some { 1nat } else { 0nat },
{
    assert(s.push(x).drop_last() =~= s);
}

/// A list with no tracked call awaits no tag.
pub proof fn lemma_untracked_awaits_nothing<T>(s: Seq<SubCall<T>>)
    requires
        tracked_count(s) == 0,
    ensures
        forall|t: T| !awaits(s, t),
    decreases s.len(),
{
    if s.len() > 0 {
        let t0 = s.drop_last();
        lemma_untracked_awaits_nothing(t0);
        assert(s.last().reply is None);
        assert forall|t: T| !awaits(s, t) by {
            assert(!awaits(t0, t));
            assert forall|i: int| 0 <= i < s.len() implies s[i].reply != Some(t) by {
                if i < s.len() - 1 {
                    assert(t0[i] == s[i]);
                    assert(!(0 <= i < t0.len() && t0[i].reply == Some(t)));
                }
            }
        }
    }
}

/// Send `amount` (decimal text) of `denom`; fails if the amount cannot be read.
pub fn get_single_transfer_msg(receiver: String, amount: String, denom: String) -> (r: Result<
    Call,
    ContractError,
>)
    ensures
        r is Ok <==> amount_of(amount@) is Some,
        r is Err ==> r matches Err(ContractError::ValidationError { .. }),
        r matches Ok(c) ==> is_transfer(c, receiver@, seq![(denom@, amount_of(amount@)->0)]),
{
    match parse_amount(&amount) {
        Some(n) => {
            let mut coins: Vec<Coin> = Vec::new();
            coins.push(Coin { denom, amount: n });
            let c = Call::Transfer { receiver, coins };
            proof {
                assert(coins_view(coins@) =~= seq![(denom@, n)]);
            }
            Ok(c)
        },
        None => Err(ContractError::ValidationError { val: String::from_str("Invalid amount") }),
    }
}

/// Send all of `amount` to `receiver`.
pub fn get_transfer_msg(receiver: String, amount: Vec<Coin>) -> (r: Call)
    ensures
        is_transfer(r, receiver@, coins_view(amount@)),
{
    Call::Transfer { receiver, coins: amount }
}

pub fn get_swap_msg(
    sender: String,
    pool_id: u64,
    amount_in: String,
    denom_in: String,
    amount_out_min: String,
    denom_out: String,
) -> (r: Call)
    ensures
        is_swap(r, sender@, pool_id, amount_in@, denom_in@, amount_out_min@, denom_out@),
{
    Call::Swap { sender, pool_id, amount_in, denom_in, amount_out_min, denom_out }
}

pub fn get_add_liquidity_msg(
    sender: String,
    pool_id: u64,
    amount: String,
    denom: String,
    share_out_min_amount: String,
) -> (r: Call)
    ensures
        is_join(r, sender@, pool_id, amount@, denom@, share_out_min_amount@),
{
    Call::JoinPool { sender, pool_id, amount, denom, share_out_min_amount }
}

pub fn get_remove_liquidity_msg(
    owner: String,
    pool_id: u64,
    shares: String,
    denom_out: String,
    min_tokens: String,
) -> (r: Call)
    ensures
        is_exit(r, owner@, pool_id, shares@, denom_out@, min_tokens@),
{
    Call::ExitPool { sender: owner, pool_id, shares, denom_out, min_tokens }
}

pub fn get_lock_tokens_msg(owner: String, duration: u64, amount: String, denom: String) -> (r:
    Call)
    ensures
        is_lock(r, owner@, duration, amount@, denom@),
{
    Call::LockTokens { owner, duration, amount, denom }
}

pub fn get_unlock_msg(owner: String, lock_id: u64) -> (r: Call)
    ensures
        r matches Call::BeginUnlocking { owner: o, lock_id: l } && o@ == owner@ && l == lock_id,
{
    Call::BeginUnlocking { owner, lock_id }
}

pub fn get_superfluid_lock_and_delegate_msg(
    owner: String,
    amount: String,
    denom: String,
    validator_address: String,
) -> (r: Call)
    ensures
        is_lock_and_delegate(r, owner@, amount@, denom@, validator_address@),
{
    Call::LockAndDelegate { sender: owner, amount, denom, validator: validator_address }
}

pub fn get_superfluid_undelegate_msg(owner: String, lock_id: u64) -> (r: Call)
    ensures
        r matches Call::Undelegate { sender: o, lock_id: l } && o@ == owner@ && l == lock_id,
{
    Call::Undelegate { sender: owner, lock_id }
}

pub fn get_superfluid_unbond_msg(owner: String, lock_id: u64) -> (r: Call)
    ensures
        r matches Call::UnbondLock { sender: o, lock_id: l } && o@ == owner@ && l == lock_id,
{
    Call::UnbondLock { sender: owner, lock_id }
}

} // verus!
