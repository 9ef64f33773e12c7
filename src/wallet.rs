use vstd::prelude::*;
use vstd::string::*;
use crate::calls::{
    Call, Response, SubCall, awaits, get_add_liquidity_msg, get_lock_tokens_msg,
    get_remove_liquidity_msg, get_single_transfer_msg, get_superfluid_lock_and_delegate_msg,
    get_superfluid_unbond_msg, get_superfluid_undelegate_msg, get_swap_msg, get_transfer_msg,
    get_unlock_msg, is_exit, is_join, is_lock, is_lock_and_delegate, is_lock_of, is_swap,
    is_transfer, lemma_no_transfer, lemma_tracked_count_push, lemma_untracked_awaits_nothing,
    tracked_count, transfer_count,
};
use crate::common::{
    AddLiquidityParams, Coin, RemoveLiquidityParams, RestakeParams, SwapParams, coins_view,
    copy_coin,
};
use crate::error::ContractError;
use crate::text::{amount_of, amount_text, decimal, get_lp_denom, lp_denom_of};

verus! {

/// Creates a lock wallet; the sender becomes its owner.
pub struct InstantiateMsg {}

/// The operations of a lock wallet, all reserved to its owner.
pub enum ExecuteMsg {
    Deposit {
        pool_id: u64,
        duration: u64,
        validator_address: Option<String>,
        share_out_min_amount: String,
    },
    Restake { add_liquidity: AddLiquidityParams, duration: u64, swap: Option<SwapParams> },
    RestakeQueue { params: Vec<RestakeParams> },
    Unbond { lock_id: u64, is_superfluid_staking: bool },
    Withdraw { receiver: String, amount: String, denom: String },
    WithdrawAll { receiver: String, lp_tokens_out: Option<Vec<RemoveLiquidityParams>> },
}

pub struct MigrateMsg {}

pub enum QueryMsg {
    GetOwner,
}

/// The points at which a lock wallet resumes when a tracked call returns.
#[derive(PartialEq, Eq, Structural, Clone, Copy, Debug)]
pub enum WalletReply {
    /// The join of a deposit.
    AddLiquidity,
    /// The last exit of a withdraw-all.
    FinishRemovingLiquidity,
    /// The swap of a restake.
    RestakeSwap,
    /// The join of a restake.
    RestakeAddLiquidity,
}

impl WalletReply {
    pub open spec fn spec_id(self) -> u64 {
        match self {
            WalletReply::AddLiquidity => 1,
            WalletReply::FinishRemovingLiquidity => 2,
            WalletReply::RestakeSwap => 3,
            WalletReply::RestakeAddLiquidity => 4,
        }
    }

    /// The number under which the host reports this tag.
    pub fn id(&self) -> (r: u64)
        ensures
            r == self.spec_id(),
    {
        match self {
            WalletReply::AddLiquidity => 1,
            WalletReply::FinishRemovingLiquidity => 2,
            WalletReply::RestakeSwap => 3,
            WalletReply::RestakeAddLiquidity => 4,
        }
    }

    /// The tag that a number stands for, if any.
    pub fn from_id(id: u64) -> (r: Option<WalletReply>)
        ensures
            r == tag_of(id),
            r matches Some(t) ==> t.spec_id() == id,
            r is None ==> (forall|t: WalletReply| t.spec_id() != id),
            r is Some <==> 1 <= id <= 4,
    {
        if id == 1 {
            Some(WalletReply::AddLiquidity)
        } else if id == 2 {
            Some(WalletReply::FinishRemovingLiquidity)
        } else if id == 3 {
            Some(WalletReply::RestakeSwap)
        } else if id == 4 {
            Some(WalletReply::RestakeAddLiquidity)
        } else {
            proof {
                assert forall|t: WalletReply| t.spec_id() != id by {
                    match t {
                        WalletReply::AddLiquidity => {},
                        WalletReply::FinishRemovingLiquidity => {},
                        WalletReply::RestakeSwap => {},
                        WalletReply::RestakeAddLiquidity => {},
                    }
                }
            }
            None
        }
    }
}

/// The tag that the host's number `id` stands for.
pub open spec fn tag_of(id: u64) -> Option<WalletReply> {
    if id == 1 {
        Some(WalletReply::AddLiquidity)
    } else if id == 2 {
        Some(WalletReply::FinishRemovingLiquidity)
    } else if id == 3 {
        Some(WalletReply::RestakeSwap)
    } else if id == 4 {
        Some(WalletReply::RestakeAddLiquidity)
    } else {
        None
    }
}

/// What a deposit keeps while its join is in flight.
pub struct DepositParamsState {
    pub pool_id: u64,
    pub duration: u64,
    pub validator_address: Option<String>,
}

/// What a single restake keeps while its swap or join is in flight.
pub struct RestakeParamsState {
    pub pool_id: u64,
    pub duration: u64,
    pub share_out_min_amount: String,
    pub swap_denom_out: Option<String>,
}

/// The restake slot: one record, or a queue whose head is being joined.
pub enum PendingRestake {
    Single(RestakeParamsState),
    Queue(Vec<RestakeParams>),
}

/// The persisted state of a lock wallet: its owner and one slot per kind of
/// operation in flight.
pub struct WalletStore {
    pub owner: String,
    pub deposit: Option<DepositParamsState>,
    pub receiver: Option<String>,
    pub restake: Option<PendingRestake>,
}

impl WalletStore {
    /// A stored queue is never empty: the slot is cleared instead.
    pub open spec fn wf(&self) -> bool {
        self.restake matches Some(PendingRestake::Queue(q)) ==> q@.len() > 0
    }

    /// No operation is in flight.
    pub open spec fn idle(&self) -> bool {
        &&& self.deposit is None
        &&& self.receiver is None
        &&& self.restake is None
    }
}

/// Each filled slot has a tracked call that will consume it, and each
/// tracked call has the slot it needs.
pub open spec fn settled(s: WalletStore, calls: Seq<SubCall<WalletReply>>) -> bool {
    &&& (s.deposit is Some <==> awaits(calls, WalletReply::AddLiquidity))
    &&& (s.receiver is Some <==> awaits(calls, WalletReply::FinishRemovingLiquidity))
    &&& (s.restake is Some <==> (awaits(calls, WalletReply::RestakeSwap) || awaits(
        calls,
        WalletReply::RestakeAddLiquidity,
    )))
}

/// Exactly one coin, of a non-zero amount.
pub open spec fn funds_ok(funds: Seq<Coin>) -> bool {
    funds.len() == 1 && funds[0].amount != 0
}

/// A new lock wallet owned by `sender`, with nothing in flight.
pub fn instantiate(sender: String, msg: InstantiateMsg) -> (r: WalletStore)
    ensures
        r.owner == sender,
        r.idle(),
        r.wf(),
{
    WalletStore { owner: sender, deposit: None, receiver: None, restake: None }
}

/// The owner of the wallet.
pub fn get_owner(store: &WalletStore) -> (r: String)
    ensures
        r == store.owner,
{
    store.owner.clone()
}

/// Succeeds exactly when the sender is the owner.
pub fn validate_owner(store: &WalletStore, sender: &String) -> (r: Result<(), ContractError>)
    ensures
        r is Ok <==> sender@ == store.owner@,
        r is Err ==> r matches Err(ContractError::Unauthorized),
{
    if *sender != store.owner {
        return Err(ContractError::Unauthorized);
    }
    Ok(())
}

/// The single coin sent, if exactly one of a non-zero amount was sent.
pub fn validate_funds(funds: &Vec<Coin>) -> (r: Result<Coin, ContractError>)
    ensures
        r is Ok <==> funds_ok(funds@),
        r matches Ok(c) ==> c.denom@ == funds@[0].denom@ && c.amount == funds@[0].amount,
        r is Err ==> r matches Err(ContractError::InvalidFunds),
{
    if funds.len() != 1 || funds[0].amount == 0 {
        return Err(ContractError::InvalidFunds);
    }
    Ok(copy_coin(&funds[0]))
}

/// What a deposit to the wallet does.
pub open spec fn deposit_post(
    old: WalletStore,
    new: WalletStore,
    contract: String,
    sender: String,
    funds: Vec<Coin>,
    pool_id: u64,
    duration: u64,
    validator_address: Option<String>,
    share_out_min_amount: String,
    r: Result<Response<WalletReply>, ContractError>,
) -> bool {
    &&& (sender@ != old.owner@ ==> r matches Err(ContractError::Unauthorized))
    &&& (sender@ == old.owner@ && !funds_ok(funds@) ==> r matches Err(
        ContractError::InvalidFunds,
    ))
    &&& (r is Err ==> new == old)
    &&& (r is Ok <==> sender@ == old.owner@ && funds_ok(funds@))
    &&& (r matches Ok(resp) ==> {
        &&& resp.calls@.len() == 1
        &&& resp.calls@[0].reply == Some(WalletReply::AddLiquidity)
        &&& is_join(
            resp.calls@[0].call,
            contract@,
            pool_id,
            decimal(funds@[0].amount as nat),
            funds@[0].denom@,
            share_out_min_amount@,
        )
        &&& new.deposit == Some(
            DepositParamsState { pool_id, duration, validator_address },
        )
        &&& new.owner == old.owner
        &&& new.receiver == old.receiver
        &&& new.restake == old.restake
        &&& old.idle() ==> settled(new, resp.calls@)
    })
}

/// Joins `pool_id` with the single coin sent and keeps the deposit so that
/// the join's reply can lock the shares.
pub fn deposit(
    store: &mut WalletStore,
    contract: &String,
    sender: &String,
    funds: &Vec<Coin>,
    pool_id: u64,
    duration: u64,
    validator_address: Option<String>,
    share_out_min_amount: String,
) -> (r: Result<Response<WalletReply>, ContractError>)
    ensures
        deposit_post(*old(store), *final(store), *contract, *sender, *funds, pool_id, duration, validator_address, share_out_min_amount, r),
{
    validate_owner(store, sender)?;
    let fund = validate_funds(funds)?;
    store.deposit = Some(DepositParamsState { pool_id, duration, validator_address });
    let join = Call::JoinPool {
        sender: contract.clone(),
        pool_id,
        amount: amount_text(fund.amount),
        denom: fund.denom,
        share_out_min_amount,
    };
    let mut resp = Response::new();
    resp.add_submessage(join, WalletReply::AddLiquidity);
    proof {
        assert(resp.calls@[0].reply == Some(WalletReply::AddLiquidity));
    }
    Ok(resp)
}

/// The denom that a single restake swaps into, if it swaps.
pub open spec fn swap_denom(swap: Option<SwapParams>) -> Option<String> {
    match swap {
        Some(sw) => Some(sw.denom_out),
        None => None,
    }
}

/// What the restake slot holds as a queue, if it holds one.
pub open spec fn queue_view(r: Option<PendingRestake>) -> Option<Seq<RestakeParams>> {
    match r {
        Some(PendingRestake::Queue(q)) => Some(q@),
        _ => None,
    }
}

/// What a single restake does.
pub open spec fn restake_post(
    old: WalletStore,
    new: WalletStore,
    contract: String,
    sender: String,
    add_liquidity: AddLiquidityParams,
    duration: u64,
    swap: Option<SwapParams>,
    r: Result<Response<WalletReply>, ContractError>,
) -> bool {
    &&& (r is Ok <==> sender@ == old.owner@)
    &&& (r is Err ==> (r matches Err(ContractError::Unauthorized)) && new == old)
    &&& (r matches Ok(resp) ==> {
        &&& new.restake == Some(
            PendingRestake::Single(
                RestakeParamsState {
                    pool_id: add_liquidity.pool_id,
                    duration,
                    share_out_min_amount: add_liquidity.share_out_min_amount,
                    swap_denom_out: swap_denom(swap),
                },
            ),
        )
        &&& new.owner == old.owner
        &&& new.deposit == old.deposit
        &&& new.receiver == old.receiver
        &&& resp.calls@.len() == 1
        &&& match swap {
            Some(sw) => {
                &&& resp.calls@[0].reply == Some(WalletReply::RestakeSwap)
                &&& is_swap(
                    resp.calls@[0].call,
                    contract@,
                    sw.pool_id,
                    add_liquidity.amount@,
                    add_liquidity.denom@,
                    sw.amount_out_min@,
                    sw.denom_out@,
                )
            },
            None => {
                &&& resp.calls@[0].reply == Some(WalletReply::RestakeAddLiquidity)
                &&& is_join(
                    resp.calls@[0].call,
                    contract@,
                    add_liquidity.pool_id,
                    add_liquidity.amount@,
                    add_liquidity.denom@,
                    add_liquidity.share_out_min_amount@,
                )
            },
        }
        &&& old.idle() ==> settled(new, resp.calls@)
    })
}

/// Restakes one amount: swaps it first where `swap` is given, else joins
/// `add_liquidity.pool_id` directly; the slot keeps what the replies need.
pub fn restake(
    store: &mut WalletStore,
    contract: &String,
    sender: &String,
    add_liquidity: AddLiquidityParams,
    duration: u64,
    swap: Option<SwapParams>,
) -> (r: Result<Response<WalletReply>, ContractError>)
    ensures
        restake_post(*old(store), *final(store), *contract, *sender, add_liquidity, duration, swap, r),
{
    validate_owner(store, sender)?;
    let swap_denom_out = match &swap {
        Some(sw) => Some(sw.denom_out.clone()),
        None => None,
    };
    store.restake = Some(
        PendingRestake::Single(
            RestakeParamsState {
                pool_id: add_liquidity.pool_id,
                duration,
                share_out_min_amount: add_liquidity.share_out_min_amount.clone(),
                swap_denom_out,
            },
        ),
    );
    let mut resp = Response::new();
    match swap {
        Some(sw) => {
            let c = get_swap_msg(
                contract.clone(),
                sw.pool_id,
                add_liquidity.amount,
                add_liquidity.denom,
                sw.amount_out_min,
                sw.denom_out,
            );
            resp.add_submessage(c, WalletReply::RestakeSwap);
        },
        None => {
            let c = get_add_liquidity_msg(
                contract.clone(),
                add_liquidity.pool_id,
                add_liquidity.amount,
                add_liquidity.denom,
                add_liquidity.share_out_min_amount,
            );
            resp.add_submessage(c, WalletReply::RestakeAddLiquidity);
        },
    }
    proof {
        assert(resp.calls@[0].reply is Some);
    }
    Ok(resp)
}

/// What a queued restake does.
pub open spec fn restake_queue_post(
    old: WalletStore,
    new: WalletStore,
    contract: String,
    sender: String,
    params: Vec<RestakeParams>,
    r: Result<Response<WalletReply>, ContractError>,
) -> bool {
    &&& (r is Ok <==> sender@ == old.owner@)
    &&& (r is Err ==> (r matches Err(ContractError::Unauthorized)) && new == old)
    &&& (r matches Ok(resp) ==> {
        &&& new.owner == old.owner
        &&& new.deposit == old.deposit
        &&& new.receiver == old.receiver
        &&& params@.len() == 0 ==> resp.calls@.len() == 0 && new.restake == old.restake
        &&& params@.len() > 0 ==> {
            &&& new.restake == Some(PendingRestake::Queue(params))
            &&& resp.calls@.len() == 1
            &&& resp.calls@[0].reply == Some(WalletReply::RestakeAddLiquidity)
            &&& is_join(
                resp.calls@[0].call,
                contract@,
                params@[0].pool_id,
                params@[0].amount@,
                params@[0].denom@,
                params@[0].share_out_min_amount@,
            )
        }
        &&& old.idle() ==> settled(new, resp.calls@)
    })
}

/// Restakes a queue of positions one after the other: joins the head now and
/// keeps the whole queue; each join's reply locks the head and moves on.
pub fn restake_queue(
    store: &mut WalletStore,
    contract: &String,
    sender: &String,
    params: Vec<RestakeParams>,
) -> (r: Result<Response<WalletReply>, ContractError>)
    ensures
        restake_queue_post(*old(store), *final(store), *contract, *sender, params, r),
{
    validate_owner(store, sender)?;
    let mut resp = Response::new();
    if params.len() == 0 {
        return Ok(resp);
    }
    let c = get_add_liquidity_msg(
        contract.clone(),
        params[0].pool_id,
        params[0].amount.clone(),
        params[0].denom.clone(),
        params[0].share_out_min_amount.clone(),
    );
    resp.add_submessage(c, WalletReply::RestakeAddLiquidity);
    store.restake = Some(PendingRestake::Queue(params));
    proof {
        assert(resp.calls@[0].reply is Some);
    }
    Ok(resp)
}

/// Lock `amount` of `denom` for `duration` seconds.
pub fn lock(owner: String, duration: u64, amount: String, denom: String) -> (r: Result<
    Response<WalletReply>,
    ContractError,
>)
    ensures
        r matches Ok(resp) && resp.calls@.len() == 1 && resp.calls@[0].reply is None && is_lock(
            resp.calls@[0].call,
            owner@,
            duration,
            amount@,
            denom@,
        ),
{
    let mut resp = Response::new();
    resp.add_message(get_lock_tokens_msg(owner, duration, amount, denom));
    Ok(resp)
}

/// Begin unlocking lock `lock_id`.
pub fn unlock(owner: String, lock_id: u64) -> (r: Result<Response<WalletReply>, ContractError>)
    ensures
        r matches Ok(resp) && resp.calls@.len() == 1 && resp.calls@[0].reply is None
            && (resp.calls@[0].call matches Call::BeginUnlocking { owner: o, lock_id: l } && o@
            == owner@ && l == lock_id),
{
    let mut resp = Response::new();
    resp.add_message(get_unlock_msg(owner, lock_id));
    Ok(resp)
}

/// Lock `amount` of `denom` and delegate it to `validator_address`.
pub fn superfluid_lock_and_delegate(
    owner: String,
    amount: String,
    denom: String,
    validator_address: String,
) -> (r: Result<Response<WalletReply>, ContractError>)
    ensures
        r matches Ok(resp) && resp.calls@.len() == 1 && resp.calls@[0].reply is None
            && is_lock_and_delegate(
            resp.calls@[0].call,
            owner@,
            amount@,
            denom@,
            validator_address@,
        ),
{
    let mut resp = Response::new();
    resp.add_message(get_superfluid_lock_and_delegate_msg(owner, amount, denom, validator_address));
    Ok(resp)
}

/// Undelegate lock `lock_id`, then unbond it; both or neither take effect.
pub fn superfluid_undelegate_and_unbond(owner: String, lock_id: u64) -> (r: Result<
    Response<WalletReply>,
    ContractError,
>)
    ensures
        r matches Ok(resp) && resp.calls@.len() == 2 && resp.calls@[0].reply is None
            && resp.calls@[1].reply is None && (resp.calls@[0].call matches Call::Undelegate {
            sender: o,
            lock_id: l,
        } && o@ == owner@ && l == lock_id) && (resp.calls@[1].call matches Call::UnbondLock {
            sender: o,
            lock_id: l,
        } && o@ == owner@ && l == lock_id),
{
    let mut resp = Response::new();
    resp.add_message(get_superfluid_undelegate_msg(owner.clone(), lock_id));
    resp.add_message(get_superfluid_unbond_msg(owner, lock_id));
    Ok(resp)
}

/// What an unbond does.
pub open spec fn unbond_post(
    store: WalletStore,
    contract: String,
    sender: String,
    lock_id: u64,
    is_superfluid_staking: bool,
    r: Result<Response<WalletReply>, ContractError>,
) -> bool {
    &&& (r is Ok <==> sender@ == store.owner@)
    &&& (r is Err ==> r matches Err(ContractError::Unauthorized))
    &&& (r matches Ok(resp) ==> {
        &&& tracked_count(resp.calls@) == 0
        &&& is_superfluid_staking ==> {
            &&& resp.calls@.len() == 2
            &&& resp.calls@[0].call matches Call::Undelegate { sender: o, lock_id: l } && o@
                == contract@ && l == lock_id
            &&& resp.calls@[1].call matches Call::UnbondLock { sender: o, lock_id: l } && o@
                == contract@ && l == lock_id
        }
        &&& !is_superfluid_staking ==> {
            &&& resp.calls@.len() == 1
            &&& resp.calls@[0].call matches Call::BeginUnlocking { owner: o, lock_id: l }
                && o@ == contract@ && l == lock_id
        }
    })
}

/// Unbonds lock `lock_id`: a plain unlock, or an undelegation and an unbond
/// where it is delegated. Nothing is tracked and nothing is kept.
pub fn unbond(
    store: &WalletStore,
    contract: &String,
    sender: &String,
    lock_id: u64,
    is_superfluid_staking: bool,
) -> (r: Result<Response<WalletReply>, ContractError>)
    ensures
        unbond_post(*store, *contract, *sender, lock_id, is_superfluid_staking, r),
{
    validate_owner(store, sender)?;
    let r = if is_superfluid_staking {
        superfluid_undelegate_and_unbond(contract.clone(), lock_id)
    } else {
        unlock(contract.clone(), lock_id)
    };
    proof {
        let resp = r->Ok_0;
        assert(resp.calls@.len() == 1 ==> resp.calls@.drop_last().len() == 0);
        assert(resp.calls@.len() == 2 ==> resp.calls@.drop_last().drop_last().len() == 0);
        reveal_with_fuel(tracked_count, 3);
    }
    r
}

/// What a withdrawal does.
pub open spec fn withdraw_post(
    store: WalletStore,
    sender: String,
    receiver: String,
    amount: String,
    denom: String,
    r: Result<Response<WalletReply>, ContractError>,
) -> bool {
    &&& (sender@ != store.owner@ ==> r matches Err(ContractError::Unauthorized))
    &&& (sender@ == store.owner@ && amount_of(amount@) is None ==> r matches Err(
        ContractError::ValidationError { .. },
    ))
    &&& (r is Ok <==> sender@ == store.owner@ && amount_of(amount@) is Some)
    &&& (r matches Ok(resp) ==> {
        &&& resp.calls@.len() == 1
        &&& resp.calls@[0].reply is None
        &&& is_transfer(
            resp.calls@[0].call,
            receiver@,
            seq![(denom@, amount_of(amount@)->0)],
        )
    })
}

/// Sends `amount` of `denom` from the wallet to `receiver`.
pub fn withdraw(
    store: &WalletStore,
    sender: &String,
    receiver: String,
    amount: String,
    denom: String,
) -> (r: Result<Response<WalletReply>, ContractError>)
    ensures
        withdraw_post(*store, *sender, receiver, amount, denom, r),
{
    validate_owner(store, sender)?;
    let c = get_single_transfer_msg(receiver, amount, denom)?;
    let mut resp = Response::new();
    resp.add_message(c);
    Ok(resp)
}

/// Sends the whole of `balances`, the wallet's current holdings, to `receiver`.
pub fn send_all_balances(receiver: String, balances: Vec<Coin>) -> (r: Result<
    Response<WalletReply>,
    ContractError,
>)
    ensures
        r matches Ok(resp) && resp.calls@.len() == 1 && resp.calls@[0].reply is None
            && is_transfer(resp.calls@[0].call, receiver@, coins_view(balances@)),
{
    let mut resp = Response::new();
    resp.add_message(get_transfer_msg(receiver, balances));
    Ok(resp)
}

/// The positions that a withdraw-all exits first.
pub open spec fn positions(lp_tokens_out: Option<Vec<RemoveLiquidityParams>>) -> Seq<
    RemoveLiquidityParams,
> {
    match lp_tokens_out {
        Some(v) => v@,
        None => Seq::empty(),
    }
}

/// Exit position `p` of the wallet at `contract`.
pub open spec fn is_exit_of(c: Call, contract: Seq<char>, p: RemoveLiquidityParams) -> bool {
    is_exit(c, contract, p.pool_id, p.shares@, p.denom_out@, p.min_tokens@)
}

fn exit_call(contract: &String, p: &RemoveLiquidityParams) -> (r: Call)
    ensures
        is_exit_of(r, contract@, *p),
{
    get_remove_liquidity_msg(
        contract.clone(),
        p.pool_id,
        p.shares.clone(),
        p.denom_out.clone(),
        p.min_tokens.clone(),
    )
}

/// What a withdraw-all does.
pub open spec fn withdraw_all_post(
    old: WalletStore,
    new: WalletStore,
    contract: String,
    sender: String,
    receiver: String,
    lp_tokens_out: Option<Vec<RemoveLiquidityParams>>,
    balances: Vec<Coin>,
    r: Result<Response<WalletReply>, ContractError>,
) -> bool {
    &&& (r is Ok <==> sender@ == old.owner@)
    &&& (r is Err ==> (r matches Err(ContractError::Unauthorized)) && new == old)
    &&& (r matches Ok(resp) ==> {
        let m = positions(lp_tokens_out).len();
        &&& new.owner == old.owner
        &&& new.deposit == old.deposit
        &&& new.restake == old.restake
        &&& m == 0 ==> {
            &&& new.receiver == old.receiver
            &&& resp.calls@.len() == 1
            &&& resp.calls@[0].reply is None
            &&& is_transfer(resp.calls@[0].call, receiver@, coins_view(balances@))
        }
        &&& m > 0 ==> {
            &&& new.receiver == Some(receiver)
            &&& resp.calls@.len() == m
            &&& tracked_count(resp.calls@) == 1
            &&& forall|i: int|
                0 <= i < m - 1 ==> (#[trigger] resp.calls@[i]).reply is None && is_exit_of(
                    resp.calls@[i].call,
                    contract@,
                    positions(lp_tokens_out)[i],
                )
            &&& resp.calls@[m - 1].reply == Some(WalletReply::FinishRemovingLiquidity)
            &&& is_exit_of(resp.calls@[m - 1].call, contract@, positions(lp_tokens_out)[m - 1])
        }
        &&& old.idle() ==> settled(new, resp.calls@)
    })
}

/// Sends everything the wallet holds to `receiver`. Where positions are
/// given, exits them first: all but the last untracked, the last tracked, and
/// its reply sends the whole balance. With no positions the balances passed
/// in are sent at once.
pub fn withdraw_all(
    store: &mut WalletStore,
    contract: &String,
    sender: &String,
    receiver: String,
    lp_tokens_out: Option<Vec<RemoveLiquidityParams>>,
    balances: Vec<Coin>,
) -> (r: Result<Response<WalletReply>, ContractError>)
    ensures
        withdraw_all_post(*old(store), *final(store), *contract, *sender, receiver, lp_tokens_out, balances, r),
{
    validate_owner(store, sender)?;
    let v = match lp_tokens_out {
        None => {
            return send_all_balances(receiver, balances);
        },
        Some(v) => v,
    };
    if v.len() == 0 {
        return send_all_balances(receiver, balances);
    }
    let n = v.len();
    let mut resp: Response<WalletReply> = Response::new();
    let mut i: usize = 0;
    while i + 1 < n
        invariant
            n == v@.len(),
            n >= 1,
            i < n,
            resp.calls@.len() == i,
            tracked_count(resp.calls@) == 0,
            forall|j: int|
                0 <= j < i ==> (#[trigger] resp.calls@[j]).reply is None && is_exit_of(
                    resp.calls@[j].call,
                    contract@,
                    v@[j],
                ),
        decreases n - i,
    {
        let c = exit_call(contract, &v[i]);
        proof {
            lemma_tracked_count_push(resp.calls@, SubCall { call: c, reply: None });
        }
        resp.add_message(c);
        i = i + 1;
    }
    let last = exit_call(contract, &v[n - 1]);
    proof {
        lemma_tracked_count_push(
            resp.calls@,
            SubCall { call: last, reply: Some(WalletReply::FinishRemovingLiquidity) },
        );
    }
    resp.add_submessage(last, WalletReply::FinishRemovingLiquidity);
    store.receiver = Some(receiver);
    proof {
        let calls = resp.calls@;
        assert(calls[n - 1].reply == Some(WalletReply::FinishRemovingLiquidity));
        assert forall|t: WalletReply|
            t != WalletReply::FinishRemovingLiquidity implies !awaits(calls, t) by {
            assert forall|j: int| 0 <= j < calls.len() implies calls[j].reply != Some(t) by {
                if j < n - 1 {
                    assert(calls[j].reply is None);
                }
            }
        }
    }
    Ok(resp)
}

/// The shares that a pool join reports minting, read from its reply payload.
pub uninterp spec fn joined_shares(data: Seq<u8>) -> Option<Seq<char>>;

/// The amount that a swap reports paying out, read from its reply payload.
pub uninterp spec fn swapped_amount(data: Seq<u8>) -> Option<Seq<char>>;

/// The amount that a pool exit reports paying out, read from its reply payload.
pub uninterp spec fn exited_amount(data: Seq<u8>) -> Option<Seq<char>>;

/// Relies on osmosis-std's `TryFrom<Binary>` for
/// `MsgJoinSwapExternAmountInResponse`, a protobuf decode of the bytes alone.
#[verifier::external_body]
fn decode_join_response(data: &Vec<u8>) -> (r: Result<String, String>)
    ensures
        r matches Ok(s) ==> joined_shares(data@) == Some(s@),
        r is Err ==> joined_shares(data@) is None,
{
    osmosis_std::types::osmosis::gamm::v1beta1::MsgJoinSwapExternAmountInResponse::try_from(
        cosmwasm_std::Binary::from(data.clone()),
    ).map(|m| m.share_out_amount).map_err(|e| e.to_string())
}

/// Relies on osmosis-std's `TryFrom<Binary>` for
/// `MsgSwapExactAmountInResponse`, a protobuf decode of the bytes alone.
#[verifier::external_body]
fn decode_swap_response(data: &Vec<u8>) -> (r: Result<String, String>)
    ensures
        r matches Ok(s) ==> swapped_amount(data@) == Some(s@),
        r is Err ==> swapped_amount(data@) is None,
{
    osmosis_std::types::osmosis::gamm::v1beta1::MsgSwapExactAmountInResponse::try_from(
        cosmwasm_std::Binary::from(data.clone()),
    ).map(|m| m.token_out_amount).map_err(|e| e.to_string())
}

/// Relies on osmosis-std's `TryFrom<Binary>` for
/// `MsgExitSwapShareAmountInResponse`, a protobuf decode of the bytes alone.
#[verifier::external_body]
fn decode_exit_response(data: &Vec<u8>) -> (r: Result<String, String>)
    ensures
        r matches Ok(s) ==> exited_amount(data@) == Some(s@),
        r is Err ==> exited_amount(data@) is None,
{
    osmosis_std::types::osmosis::gamm::v1beta1::MsgExitSwapShareAmountInResponse::try_from(
        cosmwasm_std::Binary::from(data.clone()),
    ).map(|m| m.token_out_amount).map_err(|e| e.to_string())
}

pub open spec fn opt_view(o: Option<String>) -> Option<Seq<char>> {
    match o {
        Some(s) => Some(s@),
        None => None,
    }
}

/// The queue after its head has been joined and locked; `None` once empty.
pub open spec fn queue_after(q: Seq<RestakeParams>) -> Option<Seq<RestakeParams>> {
    if q.len() > 1 {
        Some(q.drop_first())
    } else {
        None
    }
}

/// A join step failed: nothing was kept and the error says so.
pub open spec fn join_failed(
    old: WalletStore,
    new: WalletStore,
    r: Result<Response<WalletReply>, ContractError>,
) -> bool {
    new == old && (r matches Err(ContractError::AddLiquidityError { .. }))
}

/// A swap step failed: nothing was kept and the error says so.
pub open spec fn swap_failed(
    old: WalletStore,
    new: WalletStore,
    r: Result<Response<WalletReply>, ContractError>,
) -> bool {
    new == old && (r matches Err(ContractError::SwapError { .. }))
}

/// An exit step failed: nothing was kept and the error says so.
pub open spec fn exit_failed(
    old: WalletStore,
    new: WalletStore,
    r: Result<Response<WalletReply>, ContractError>,
) -> bool {
    new == old && (r matches Err(ContractError::RemoveLiquidityError { .. }))
}

/// A deposit's join returned `shares`: the slot is cleared and the shares are
/// locked, and delegated where a validator was named.
pub open spec fn deposit_locked(
    old: WalletStore,
    new: WalletStore,
    contract: Seq<char>,
    shares: Seq<char>,
    r: Result<Response<WalletReply>, ContractError>,
) -> bool {
    let d = old.deposit->0;
    &&& new == (WalletStore { deposit: None, ..old })
    &&& r matches Ok(resp)
    &&& resp.calls@.len() == 1
    &&& resp.calls@[0].reply is None
    &&& is_lock_of(
        resp.calls@[0].call,
        contract,
        d.duration,
        shares,
        lp_denom_of(d.pool_id),
        opt_view(d.validator_address),
    )
    &&& old.receiver is None && old.restake is None ==> settled(new, resp.calls@)
}

/// A restake's swap returned `amount`: the swapped amount joins the pool,
/// tracked, and the slot stays for that join's reply.
pub open spec fn swap_joined(
    old: WalletStore,
    new: WalletStore,
    contract: Seq<char>,
    amount: Seq<char>,
    r: Result<Response<WalletReply>, ContractError>,
) -> bool {
    let p = old.restake->0->Single_0;
    &&& new == old
    &&& r matches Ok(resp)
    &&& resp.calls@.len() == 1
    &&& resp.calls@[0].reply == Some(WalletReply::RestakeAddLiquidity)
    &&& is_join(
        resp.calls@[0].call,
        contract,
        p.pool_id,
        amount,
        p.swap_denom_out->0@,
        p.share_out_min_amount@,
    )
    &&& old.deposit is None && old.receiver is None ==> settled(new, resp.calls@)
}

/// The last exit of a withdraw-all returned: the slot is cleared and the
/// whole of `balances` goes to the receiver it held.
pub open spec fn balances_swept(
    old: WalletStore,
    new: WalletStore,
    balances: Seq<Coin>,
    r: Result<Response<WalletReply>, ContractError>,
) -> bool {
    &&& new == (WalletStore { receiver: None, ..old })
    &&& r matches Ok(resp)
    &&& resp.calls@.len() == 1
    &&& resp.calls@[0].reply is None
    &&& is_transfer(resp.calls@[0].call, old.receiver->0@, coins_view(balances))
    &&& old.deposit is None && old.restake is None ==> settled(new, resp.calls@)
}

/// A restake's join returned `shares`: they are locked for the duration of
/// the record that was joined; a queue drops its head and, if anything is
/// left, joins the new head, tracked.
pub open spec fn restake_locked(
    old: WalletStore,
    new: WalletStore,
    contract: Seq<char>,
    shares: Seq<char>,
    r: Result<Response<WalletReply>, ContractError>,
) -> bool {
    &&& new.owner == old.owner
    &&& new.deposit == old.deposit
    &&& new.receiver == old.receiver
    &&& new.wf()
    &&& r matches Ok(resp)
    &&& resp.calls@.len() >= 1
    &&& resp.calls@[0].reply is None
    &&& match old.restake->0 {
        PendingRestake::Single(p) => {
            &&& new.restake is None
            &&& resp.calls@.len() == 1
            &&& is_lock(resp.calls@[0].call, contract, p.duration, shares, lp_denom_of(p.pool_id))
        },
        PendingRestake::Queue(q) => {
            let head = q@[0];
            &&& queue_view(new.restake) == queue_after(q@)
            &&& (new.restake is None || (new.restake matches Some(PendingRestake::Queue(_))))
            &&& is_lock(
                resp.calls@[0].call,
                contract,
                head.duration,
                shares,
                lp_denom_of(head.pool_id),
            )
            &&& q@.len() == 1 ==> resp.calls@.len() == 1
            &&& q@.len() > 1 ==> {
                let next = q@[1];
                &&& resp.calls@.len() == 2
                &&& resp.calls@[1].reply == Some(WalletReply::RestakeAddLiquidity)
                &&& is_join(
                    resp.calls@[1].call,
                    contract,
                    next.pool_id,
                    next.amount@,
                    next.denom@,
                    next.share_out_min_amount@,
                )
            }
        },
    }
    &&& old.deposit is None && old.receiver is None ==> settled(new, resp.calls@)
}

/// The whole of a deposit's join reply.
pub open spec fn add_liquidity_post(
    old: WalletStore,
    new: WalletStore,
    contract: Seq<char>,
    result: Result<Option<Vec<u8>>, String>,
    r: Result<Response<WalletReply>, ContractError>,
) -> bool {
    match result {
        Err(e) => new == old && r == Err::<Response<WalletReply>, ContractError>(
            ContractError::AddLiquidityError { val: e },
        ),
        Ok(None) => new == old && (r matches Err(ContractError::AddLiquidityError { val }) && val@
            == "Empty response"@),
        Ok(Some(b)) => match (old.deposit, joined_shares(b@)) {
            (Some(_), Some(shares)) => deposit_locked(old, new, contract, shares, r),
            _ => join_failed(old, new, r),
        },
    }
}

/// The whole of a restake's swap reply.
pub open spec fn swap_post(
    old: WalletStore,
    new: WalletStore,
    contract: Seq<char>,
    result: Result<Option<Vec<u8>>, String>,
    r: Result<Response<WalletReply>, ContractError>,
) -> bool {
    match result {
        Err(e) => new == old && r == Err::<Response<WalletReply>, ContractError>(
            ContractError::SwapError { val: e },
        ),
        Ok(None) => new == old && (r matches Err(ContractError::SwapError { val }) && val@
            == "Empty response"@),
        Ok(Some(b)) => if swap_in_flight(old) && swapped_amount(b@) is Some {
            swap_joined(old, new, contract, swapped_amount(b@)->0, r)
        } else {
            swap_failed(old, new, r)
        },
    }
}

/// A single restake that swaps is in flight.
pub open spec fn swap_in_flight(s: WalletStore) -> bool {
    s.restake matches Some(PendingRestake::Single(p)) && p.swap_denom_out is Some
}

/// The whole of the reply to a withdraw-all's last exit.
pub open spec fn remove_liquidity_post(
    old: WalletStore,
    new: WalletStore,
    balances: Seq<Coin>,
    result: Result<Option<Vec<u8>>, String>,
    r: Result<Response<WalletReply>, ContractError>,
) -> bool {
    match result {
        Err(e) => new == old && r == Err::<Response<WalletReply>, ContractError>(
            ContractError::RemoveLiquidityError { val: e },
        ),
        Ok(None) => new == old && (r matches Err(ContractError::RemoveLiquidityError { val }) && val@
            == "Empty response"@),
        Ok(Some(b)) => if exited_amount(b@) is Some && old.receiver is Some {
            balances_swept(old, new, balances, r)
        } else {
            exit_failed(old, new, r)
        },
    }
}

/// The whole of a restake's join reply.
pub open spec fn restake_add_liquidity_post(
    old: WalletStore,
    new: WalletStore,
    contract: Seq<char>,
    result: Result<Option<Vec<u8>>, String>,
    r: Result<Response<WalletReply>, ContractError>,
) -> bool {
    match result {
        Err(e) => new == old && r == Err::<Response<WalletReply>, ContractError>(
            ContractError::AddLiquidityError { val: e },
        ),
        Ok(None) => new == old && (r matches Err(ContractError::AddLiquidityError { val }) && val@
            == "Empty response"@),
        Ok(Some(b)) => if old.restake is Some && joined_shares(b@) is Some {
            restake_locked(old, new, contract, joined_shares(b@)->0, r)
        } else {
            join_failed(old, new, r)
        },
    }
}

/// Locks the shares that a deposit's join minted, and clears the deposit slot.
pub fn finish_deposit(store: &mut WalletStore, contract: &String, share_out_amount: String) -> (r:
    Result<Response<WalletReply>, ContractError>)
    requires
        old(store).deposit is Some,
    ensures
        deposit_locked(*old(store), *final(store), contract@, share_out_amount@, r),
{
    let d = match store.deposit.take() {
        Some(d) => d,
        None => {
            return Err(ContractError::CustomError { val: String::from_str("no deposit") });
        },
    };
    let denom = get_lp_denom(d.pool_id);
    let r = match d.validator_address {
        Some(v) => superfluid_lock_and_delegate(contract.clone(), share_out_amount, denom, v),
        None => lock(contract.clone(), d.duration, share_out_amount, denom),
    };
    proof {
        let resp = r->Ok_0;
        assert(resp.calls@[0].reply is None);
    }
    r
}

/// Joins the pool of a swapping restake with what the swap paid out; the slot
/// stays for the join's reply.
pub fn swap_done(store: &WalletStore, contract: &String, token_out_amount: String) -> (r: Result<
    Response<WalletReply>,
    ContractError,
>)
    requires
        swap_in_flight(*store),
    ensures
        swap_joined(*store, *store, contract@, token_out_amount@, r),
{
    let (pool_id, denom, min) = match &store.restake {
        Some(PendingRestake::Single(p)) => match &p.swap_denom_out {
            Some(dn) => (p.pool_id, dn.clone(), p.share_out_min_amount.clone()),
            None => {
                return Err(ContractError::CustomError { val: String::from_str("no swap") });
            },
        },
        _ => {
            return Err(ContractError::CustomError { val: String::from_str("no swap") });
        },
    };
    let c = get_add_liquidity_msg(contract.clone(), pool_id, token_out_amount, denom, min);
    let mut resp = Response::new();
    resp.add_submessage(c, WalletReply::RestakeAddLiquidity);
    proof {
        assert(resp.calls@[0].reply is Some);
    }
    Ok(resp)
}

/// Sends the whole balance to the receiver of a withdraw-all and clears the slot.
pub fn exit_done(store: &mut WalletStore, balances: Vec<Coin>) -> (r: Result<
    Response<WalletReply>,
    ContractError,
>)
    requires
        old(store).receiver is Some,
    ensures
        balances_swept(*old(store), *final(store), balances@, r),
{
    let receiver = match store.receiver.take() {
        Some(x) => x,
        None => {
            return Err(ContractError::CustomError { val: String::from_str("no receiver") });
        },
    };
    send_all_balances(receiver, balances)
}

/// Locks the shares that a restake's join minted, and advances the slot: a
/// single record is cleared; a queue drops its head and joins the next one.
pub fn restake_joined(store: &mut WalletStore, contract: &String, share_out_amount: String) -> (r:
    Result<Response<WalletReply>, ContractError>)
    requires
        old(store).restake is Some,
        old(store).wf(),
    ensures
        restake_locked(*old(store), *final(store), contract@, share_out_amount@, r),
{
    match store.restake.take() {
        Some(PendingRestake::Single(p)) => {
            let r = lock(contract.clone(), p.duration, share_out_amount, get_lp_denom(p.pool_id));
            proof {
                let resp = r->Ok_0;
                assert(resp.calls@[0].reply is None);
            }
            r
        },
        Some(PendingRestake::Queue(q)) => {
            let ghost q0 = q@;
            let mut q = q;
            let head = q.remove(0);
            let mut resp: Response<WalletReply> = Response::new();
            let lock_call = get_lock_tokens_msg(
                contract.clone(),
                head.duration,
                share_out_amount,
                get_lp_denom(head.pool_id),
            );
            resp.add_message(lock_call);
            proof {
                assert(q@ =~= q0.drop_first());
            }
            if q.len() > 0 {
                let c = get_add_liquidity_msg(
                    contract.clone(),
                    q[0].pool_id,
                    q[0].amount.clone(),
                    q[0].denom.clone(),
                    q[0].share_out_min_amount.clone(),
                );
                resp.add_submessage(c, WalletReply::RestakeAddLiquidity);
                store.restake = Some(PendingRestake::Queue(q));
            }
            proof {
                assert(resp.calls@[0].reply is None);
                if resp.calls@.len() == 2 {
                    assert(resp.calls@[1].reply is Some);
                }
            }
            Ok(resp)
        },
        None => Err(ContractError::CustomError { val: String::from_str("no restake") }),
    }
}

/// Resumes a deposit when its join returns.
pub fn handle_add_liquidity(
    store: &mut WalletStore,
    contract: &String,
    result: Result<Option<Vec<u8>>, String>,
) -> (r: Result<Response<WalletReply>, ContractError>)
    ensures
        add_liquidity_post(*old(store), *final(store), contract@, result, r),
{
    match result {
        Err(e) => Err(ContractError::AddLiquidityError { val: e }),
        Ok(None) => Err(ContractError::AddLiquidityError { val: String::from_str("Empty response") }),
        Ok(Some(b)) => {
            if store.deposit.is_none() {
                return Err(
                    ContractError::AddLiquidityError { val: String::from_str("No deposit in flight") },
                );
            }
            match decode_join_response(&b) {
                Ok(shares) => finish_deposit(store, contract, shares),
                Err(e) => Err(ContractError::AddLiquidityError { val: e }),
            }
        },
    }
}

/// Resumes a swapping restake when its swap returns.
pub fn handle_swap(
    store: &mut WalletStore,
    contract: &String,
    result: Result<Option<Vec<u8>>, String>,
) -> (r: Result<Response<WalletReply>, ContractError>)
    ensures
        swap_post(*old(store), *final(store), contract@, result, r),
{
    match result {
        Err(e) => Err(ContractError::SwapError { val: e }),
        Ok(None) => Err(ContractError::SwapError { val: String::from_str("Empty response") }),
        Ok(Some(b)) => {
            let in_flight = match &store.restake {
                Some(PendingRestake::Single(p)) => p.swap_denom_out.is_some(),
                _ => false,
            };
            if !in_flight {
                return Err(ContractError::SwapError { val: String::from_str("No swap in flight") });
            }
            match decode_swap_response(&b) {
                Ok(amount) => swap_done(store, contract, amount),
                Err(e) => Err(ContractError::SwapError { val: e }),
            }
        },
    }
}

/// Resumes a withdraw-all when its last exit returns.
pub fn handle_remove_liquidity(
    store: &mut WalletStore,
    result: Result<Option<Vec<u8>>, String>,
    balances: Vec<Coin>,
) -> (r: Result<Response<WalletReply>, ContractError>)
    ensures
        remove_liquidity_post(*old(store), *final(store), balances@, result, r),
{
    match result {
        Err(e) => Err(ContractError::RemoveLiquidityError { val: e }),
        Ok(None) => Err(
            ContractError::RemoveLiquidityError { val: String::from_str("Empty response") },
        ),
        Ok(Some(b)) => {
            if let Err(e) = decode_exit_response(&b) {
                return Err(ContractError::RemoveLiquidityError { val: e });
            }
            if store.receiver.is_none() {
                return Err(
                    ContractError::RemoveLiquidityError {
                        val: String::from_str("No withdrawal in flight"),
                    },
                );
            }
            exit_done(store, balances)
        },
    }
}

/// Resumes a restake when its join returns.
pub fn handle_restake_add_liquidity(
    store: &mut WalletStore,
    contract: &String,
    result: Result<Option<Vec<u8>>, String>,
) -> (r: Result<Response<WalletReply>, ContractError>)
    requires
        old(store).wf(),
    ensures
        restake_add_liquidity_post(*old(store), *final(store), contract@, result, r),
{
    match result {
        Err(e) => Err(ContractError::AddLiquidityError { val: e }),
        Ok(None) => Err(ContractError::AddLiquidityError { val: String::from_str("Empty response") }),
        Ok(Some(b)) => {
            if store.restake.is_none() {
                return Err(
                    ContractError::AddLiquidityError { val: String::from_str("No restake in flight") },
                );
            }
            match decode_join_response(&b) {
                Ok(shares) => restake_joined(store, contract, shares),
                Err(e) => Err(ContractError::AddLiquidityError { val: e }),
            }
        },
    }
}

/// Routes the outcome of a tracked call to the handler of its tag. An unknown
/// tag fails. `balances` is what the wallet holds now; only the reply to a
/// withdraw-all's last exit sends it.
pub fn reply(
    store: &mut WalletStore,
    contract: &String,
    id: u64,
    result: Result<Option<Vec<u8>>, String>,
    balances: Vec<Coin>,
) -> (r: Result<Response<WalletReply>, ContractError>)
    requires
        old(store).wf(),
    ensures
        final(store).wf(),
        tag_of(id) is None ==> *final(store) == *old(store) && (r matches Err(
            ContractError::CustomError { val },
        ) && val@ == "Unknown reply id "@ + decimal(id as nat)),
        tag_of(id) == Some(WalletReply::AddLiquidity) ==> add_liquidity_post(
            *old(store),
            *final(store),
            contract@,
            result,
            r,
        ),
        tag_of(id) == Some(WalletReply::FinishRemovingLiquidity) ==> remove_liquidity_post(
            *old(store),
            *final(store),
            balances@,
            result,
            r,
        ),
        tag_of(id) == Some(WalletReply::RestakeSwap) ==> swap_post(
            *old(store),
            *final(store),
            contract@,
            result,
            r,
        ),
        tag_of(id) == Some(WalletReply::RestakeAddLiquidity) ==> restake_add_liquidity_post(
            *old(store),
            *final(store),
            contract@,
            result,
            r,
        ),
{
    match WalletReply::from_id(id) {
        Some(WalletReply::AddLiquidity) => handle_add_liquidity(store, contract, result),
        Some(WalletReply::FinishRemovingLiquidity) => handle_remove_liquidity(
            store,
            result,
            balances,
        ),
        Some(WalletReply::RestakeSwap) => handle_swap(store, contract, result),
        Some(WalletReply::RestakeAddLiquidity) => handle_restake_add_liquidity(
            store,
            contract,
            result,
        ),
        None => {
            let mut val = String::from_str("Unknown reply id ");
            let n = amount_text(id as u128);
            val.append(n.as_str());
            Err(ContractError::CustomError { val })
        },
    }
}

/// Runs one operation of the wallet for `sender`, who must be the owner.
/// `funds` is what was sent along; `balances` is what the wallet holds,
/// which only a withdraw-all sends.
pub fn execute(
    store: &mut WalletStore,
    contract: &String,
    sender: &String,
    funds: &Vec<Coin>,
    msg: ExecuteMsg,
    balances: Vec<Coin>,
) -> (r: Result<Response<WalletReply>, ContractError>)
    requires
        old(store).wf(),
    ensures
        sender@ != old(store).owner@ ==> r matches Err(ContractError::Unauthorized),
        r is Err ==> *final(store) == *old(store),
        final(store).wf(),
        final(store).owner == old(store).owner,
        old(store).idle() ==> (r matches Ok(resp) ==> settled(*final(store), resp.calls@)),
        match msg {
            ExecuteMsg::Deposit { pool_id, duration, validator_address, share_out_min_amount } => {
                deposit_post(
                    *old(store),
                    *final(store),
                    *contract,
                    *sender,
                    *funds,
                    pool_id,
                    duration,
                    validator_address,
                    share_out_min_amount,
                    r,
                )
            },
            ExecuteMsg::Restake { add_liquidity, duration, swap } => restake_post(
                *old(store),
                *final(store),
                *contract,
                *sender,
                add_liquidity,
                duration,
                swap,
                r,
            ),
            ExecuteMsg::RestakeQueue { params } => restake_queue_post(
                *old(store),
                *final(store),
                *contract,
                *sender,
                params,
                r,
            ),
            ExecuteMsg::Unbond { lock_id, is_superfluid_staking } => *final(store) == *old(store)
                && unbond_post(*old(store), *contract, *sender, lock_id, is_superfluid_staking, r),
            ExecuteMsg::Withdraw { receiver, amount, denom } => *final(store) == *old(store)
                && withdraw_post(*old(store), *sender, receiver, amount, denom, r),
            ExecuteMsg::WithdrawAll { receiver, lp_tokens_out } => withdraw_all_post(
                *old(store),
                *final(store),
                *contract,
                *sender,
                receiver,
                lp_tokens_out,
                balances,
                r,
            ),
        },
{
    match msg {
        ExecuteMsg::Deposit { pool_id, duration, validator_address, share_out_min_amount } => {
            deposit(
                store,
                contract,
                sender,
                funds,
                pool_id,
                duration,
                validator_address,
                share_out_min_amount,
            )
        },
        ExecuteMsg::Restake { add_liquidity, duration, swap } => {
            restake(store, contract, sender, add_liquidity, duration, swap)
        },
        ExecuteMsg::RestakeQueue { params } => restake_queue(store, contract, sender, params),
        ExecuteMsg::Unbond { lock_id, is_superfluid_staking } => {
            let r = unbond(store, contract, sender, lock_id, is_superfluid_staking);
            proof {
                if r is Ok {
                    lemma_untracked_awaits_nothing(r->Ok_0.calls@);
                }
            }
            r
        },
        ExecuteMsg::Withdraw { receiver, amount, denom } => {
            let r = withdraw(store, sender, receiver, amount, denom);
            proof {
                if r is Ok {
                    assert(r->Ok_0.calls@[0].reply is None);
                }
            }
            r
        },
        ExecuteMsg::WithdrawAll { receiver, lp_tokens_out } => {
            let r = withdraw_all(store, contract, sender, receiver, lp_tokens_out, balances);
            r
        },
    }
}

/// The restake queue after `k` successful join replies, starting from `q`;
/// `None` once the slot has been cleared.
pub open spec fn after_replies(q: Seq<RestakeParams>, k: nat) -> Option<Seq<RestakeParams>>
    decreases k,
{
    if k == 0 {
        Some(q)
    } else {
        match after_replies(q, (k - 1) as nat) {
            Some(rest) => queue_after(rest),
            None => None,
        }
    }
}

/// A restake queue of length n drains in exactly n join replies, one element
/// each: after k < n replies the slot holds the queue less its first k
/// elements, and after the n-th the slot is empty.
pub proof fn lemma_queue_drains_one_per_reply(q: Seq<RestakeParams>, k: nat)
    requires
        q.len() > 0,
        k <= q.len(),
    ensures
        k < q.len() ==> after_replies(q, k) == Some(q.subrange(k as int, q.len() as int)),
        k == q.len() ==> after_replies(q, k) is None,
    decreases k,
{
    if k == 0 {
        assert(q.subrange(0, q.len() as int) =~= q);
    } else {
        lemma_queue_drains_one_per_reply(q, (k - 1) as nat);
        let prev = q.subrange(k - 1, q.len() as int);
        if k < q.len() {
            assert(prev.drop_first() =~= q.subrange(k as int, q.len() as int));
        }
    }
}

/// A join reply moves a restake queue exactly one step along its drain: if
/// the slot held the queue left after k replies, it then holds the queue left
/// after k + 1.
pub proof fn lemma_reply_advances_queue(
    old: WalletStore,
    new: WalletStore,
    contract: Seq<char>,
    shares: Seq<char>,
    r: Result<Response<WalletReply>, ContractError>,
    q: Seq<RestakeParams>,
    k: nat,
)
    requires
        old.restake matches Some(PendingRestake::Queue(_)),
        queue_view(old.restake) == after_replies(q, k),
        restake_locked(old, new, contract, shares, r),
    ensures
        queue_view(new.restake) == after_replies(q, k + 1),
{
}

/// A withdraw-all over at least one position sends the wallet's balance
/// exactly once over its two steps: the exits issue no transfer and track
/// only the last exit, and the reply to that exit issues one transfer, of
/// the whole balance then held, to the receiver, and clears the slot.
pub proof fn lemma_withdraw_all_sweeps_once(
    s0: WalletStore,
    s1: WalletStore,
    s2: WalletStore,
    contract: String,
    sender: String,
    receiver: String,
    lp_tokens_out: Option<Vec<RemoveLiquidityParams>>,
    balances_before: Vec<Coin>,
    r1: Result<Response<WalletReply>, ContractError>,
    balances_after: Vec<Coin>,
    result: Result<Option<Vec<u8>>, String>,
    r2: Result<Response<WalletReply>, ContractError>,
)
    requires
        withdraw_all_post(s0, s1, contract, sender, receiver, lp_tokens_out, balances_before, r1),
        r1 is Ok,
        positions(lp_tokens_out).len() > 0,
        remove_liquidity_post(s1, s2, balances_after@, result, r2),
        r2 is Ok,
    ensures
        transfer_count(r1->Ok_0.calls@) == 0,
        tracked_count(r1->Ok_0.calls@) == 1,
        transfer_count(r2->Ok_0.calls@) == 1,
        is_transfer(r2->Ok_0.calls@[0].call, receiver@, coins_view(balances_after@)),
        s2.receiver is None,
{
    let calls = r1->Ok_0.calls@;
    let m = positions(lp_tokens_out).len();
    assert forall|i: int| 0 <= i < calls.len() implies !((#[trigger] calls[i]).call is Transfer) by {
        if i < m - 1 {
            assert(is_exit_of(calls[i].call, contract@, positions(lp_tokens_out)[i]));
        } else {
            assert(i == m - 1);
        }
    }
    lemma_no_transfer(calls);
    let calls2 = r2->Ok_0.calls@;
    assert(calls2.len() == 1);
    assert(calls2.drop_last().len() == 0);
    assert(transfer_count(calls2.drop_last()) == 0);
    assert(calls2.last() == calls2[0]);
    assert(calls2[0].call is Transfer);
}

} // verus!
