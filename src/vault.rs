use vstd::prelude::*;
use vstd::string::*;
use crate::calls::{Call, Response, SubCall, awaits, instantiates, is_transfer};
use crate::common::{AddLiquidityParams, Coin, RemoveLiquidityParams, SwapParams, coins_view};
use crate::directory::{Directory, WalletEntry};
use crate::error::ContractError;
use crate::text::{amount_text, decimal};
use crate::wallet;

verus! {

/// At most this many addresses may be whitelisted.
pub const WHITELIST_MAX_LENGTH: usize = 5;

pub struct InstantiateMsg {
    pub min_deposit_default: u64,
    pub valid_durations: Vec<u64>,
    pub validator_address: String,
    pub lock_wallet_contract_code_id: u64,
}

/// A restake to forward to the lock wallet at `contract_address`.
pub struct RestakeParams {
    pub contract_address: String,
    pub add_liquidity: AddLiquidityParams,
    pub duration: u64,
    pub swap: Option<SwapParams>,
}

/// The minimum deposit of one denom.
pub struct DenomMinimum {
    pub denom: String,
    pub amount: u64,
}

/// The settings that an update replaces; `None` keeps the current one.
pub struct ConfigParams {
    pub validator_address: Option<String>,
    pub lock_wallet_contract_code_id: Option<u64>,
    pub whitelist: Option<Vec<String>>,
    pub valid_durations: Option<Vec<u64>>,
    pub min_deposit_custom: Option<Vec<DenomMinimum>>,
    pub min_deposit_default: Option<u64>,
}

pub enum ExecuteMsg {
    Deposit { pool_id: u64, duration: u64, share_out_min_amount: String, is_superfluid_staking: bool },
    Restake { params: Vec<RestakeParams> },
    Unbond { lock_id: u64, pool_id: u64, duration: u64, is_superfluid_staking: bool },
    Withdraw { amount: String, denom: String, pool_id: u64, duration: u64 },
    WithdrawAll { pool_id: u64, duration: u64, lp_tokens_out: Option<Vec<RemoveLiquidityParams>> },
    UpdateConfig { config: ConfigParams },
    RetrieveTokens,
}

pub struct MigrateMsg {}

pub enum QueryMsg {
    Config,
    GetLockWalletByAccount { address: String },
    GetWallets { limit: u64, last_value: Option<(String, u64, u64)> },
    GetTotalWallets,
}

/// One registered lock wallet, as queries list it.
pub struct LockWalletResponse {
    pub account: String,
    pub contract_address: String,
    pub pool_id: u64,
    pub duration: u64,
}

/// The vault's settings.
pub struct ConfigResponse {
    pub owner: String,
    pub whitelist: Vec<String>,
    pub validator_address: String,
    pub lock_wallet_contract_code_id: u64,
    pub valid_durations: Vec<u64>,
    pub min_deposit_default: u64,
    pub min_deposit_custom: Option<Vec<DenomMinimum>>,
}

/// A deposit kept while its lock wallet is being created.
pub struct DepositParamsState {
    pub sender: String,
    pub pool_id: u64,
    pub duration: u64,
    pub share_out_min_amount: String,
    pub is_superfluid_staking: bool,
    pub funds: Vec<Coin>,
}

/// The point at which the vault resumes when a tracked call returns.
#[derive(PartialEq, Eq, Structural, Clone, Copy, Debug)]
pub enum VaultReply {
    /// A lock wallet was created for a pending deposit.
    InstantiateLockWallet,
}

/// The persisted state of the vault.
pub struct VaultStore {
    pub config: ConfigResponse,
    pub directory: Directory,
    pub pending_deposit: Option<DepositParamsState>,
}

/// The pending deposit has the tracked call that will consume it, and the
/// other way round.
pub open spec fn settled(s: VaultStore, calls: Seq<SubCall<VaultReply>>) -> bool {
    s.pending_deposit is Some <==> awaits(calls, VaultReply::InstantiateLockWallet)
}

/// The owner, or a whitelisted address.
pub open spec fn whitelisted(c: ConfigResponse, sender: Seq<char>) -> bool {
    sender == c.owner@ || exists|i: int| 0 <= i < c.whitelist@.len() && c.whitelist@[i]@ == sender
}

/// No two overrides name the same denom: the overrides are a map from denom
/// to minimum.
pub open spec fn distinct_denoms(s: Seq<DenomMinimum>) -> bool {
    forall|i: int, j: int| 0 <= i < j < s.len() ==> s[i].denom@ != s[j].denom@
}

impl ConfigResponse {
    /// The per-denom minimums, if any, name each denom at most once.
    pub open spec fn wf(&self) -> bool {
        self.min_deposit_custom matches Some(v) ==> distinct_denoms(v@)
    }
}

/// An update's per-denom minimums, if any, name each denom at most once.
pub open spec fn params_wf(p: ConfigParams) -> bool {
    p.min_deposit_custom matches Some(v) ==> distinct_denoms(v@)
}

/// The minimum deposit of `denom` among the overrides `s`, the one that
/// names it, else `default`.
pub open spec fn first_minimum(s: Seq<DenomMinimum>, denom: Seq<char>, default: u64) -> u64
    decreases s.len(),
{
    if s.len() == 0 {
        default
    } else if s[0].denom@ == denom {
        s[0].amount
    } else {
        first_minimum(s.drop_first(), denom, default)
    }
}

/// The minimum deposit of `denom`.
pub open spec fn min_deposit_of(c: ConfigResponse, denom: Seq<char>) -> u64 {
    match c.min_deposit_custom {
        Some(v) => first_minimum(v@, denom, c.min_deposit_default),
        None => c.min_deposit_default,
    }
}

/// Every coin sent reaches the minimum of its denom.
pub open spec fn funds_meet_minimum(c: ConfigResponse, funds: Seq<Coin>) -> bool {
    forall|i: int| 0 <= i < funds.len() ==> (#[trigger] funds[i]).amount >= min_deposit_of(
        c,
        funds[i].denom@,
    ) as u128
}

/// A deposit forwarded to the wallet at `wallet`.
pub open spec fn is_wallet_deposit(
    c: Call,
    wallet: Seq<char>,
    pool_id: u64,
    duration: u64,
    validator: Option<Seq<char>>,
    share_out_min_amount: Seq<char>,
    funds: Seq<(Seq<char>, u128)>,
) -> bool {
    match c {
        Call::ExecuteWallet { wallet: w, msg, funds: f } => {
            &&& w@ == wallet
            &&& coins_view(f@) == funds
            &&& match msg {
                wallet::ExecuteMsg::Deposit {
                    pool_id: p,
                    duration: d,
                    validator_address: v,
                    share_out_min_amount: m,
                } => p == pool_id && d == duration && wallet::opt_view(v) == validator && m@
                    == share_out_min_amount,
                _ => false,
            }
        },
        _ => false,
    }
}

/// The validator that a deposit delegates to, if it delegates.
pub open spec fn validator_for(c: ConfigResponse, is_superfluid_staking: bool) -> Option<Seq<char>> {
    if is_superfluid_staking {
        Some(c.validator_address@)
    } else {
        None
    }
}

/// A new lock wallet is created and the vault administers it.
pub open spec fn is_wallet_creation(c: Call, admin: Seq<char>, code_id: u64) -> bool {
    c matches Call::InstantiateWallet { admin: a, code_id: i } && a@ == admin && i == code_id
}

/// A call to the lock wallet at `wallet`, with no funds, carrying `msg`.
pub open spec fn is_wallet_call(c: Call, wallet: Seq<char>, msg: wallet::ExecuteMsg) -> bool {
    c matches Call::ExecuteWallet { wallet: w, msg: m, funds: f } && w@ == wallet && m == msg
        && f@.len() == 0
}

/// A deposit under a key with no wallet provisions one.
pub open spec fn provisions(
    directory: Map<(Seq<char>, u64, u64), Seq<char>>,
    key: (Seq<char>, u64, u64),
) -> bool {
    !directory.contains_key(key)
}

/// The directory once the wallet created for `key` is registered.
pub open spec fn registered(
    directory: Map<(Seq<char>, u64, u64), Seq<char>>,
    key: (Seq<char>, u64, u64),
    wallet: Seq<char>,
) -> Map<(Seq<char>, u64, u64), Seq<char>> {
    directory.insert(key, wallet)
}

/// Once the wallet of a key is registered, the key has exactly that wallet,
/// every other key keeps its own, and no later deposit under the key
/// provisions another.
pub proof fn lemma_provisioning_idempotent(
    directory: Map<(Seq<char>, u64, u64), Seq<char>>,
    key: (Seq<char>, u64, u64),
    wallet: Seq<char>,
)
    ensures
        registered(directory, key, wallet).contains_key(key),
        registered(directory, key, wallet)[key] == wallet,
        !provisions(registered(directory, key, wallet), key),
        forall|other: (Seq<char>, u64, u64)|
            other != key ==> (#[trigger] registered(directory, key, wallet).contains_key(other)
                == directory.contains_key(other)) && (directory.contains_key(other) ==> registered(
                directory,
                key,
                wallet,
            )[other] == directory[other]),
{
}

/// The directory after one deposit under `key` and the replies it caused:
/// a deposit that provisions registers the wallet created for it, at
/// `wallet`; any other deposit leaves the directory as it was.
pub open spec fn deposit_step(
    directory: Map<(Seq<char>, u64, u64), Seq<char>>,
    key: (Seq<char>, u64, u64),
    wallet: Seq<char>,
) -> Map<(Seq<char>, u64, u64), Seq<char>> {
    if provisions(directory, key) {
        registered(directory, key, wallet)
    } else {
        directory
    }
}

/// The directory after deposits under `key`, one per element of `wallets`:
/// the address a wallet would get if that deposit created one.
pub open spec fn after_deposits(
    directory: Map<(Seq<char>, u64, u64), Seq<char>>,
    key: (Seq<char>, u64, u64),
    wallets: Seq<Seq<char>>,
) -> Map<(Seq<char>, u64, u64), Seq<char>>
    decreases wallets.len(),
{
    if wallets.len() == 0 {
        directory
    } else {
        deposit_step(after_deposits(directory, key, wallets.drop_last()), key, wallets.last())
    }
}

/// Any run of k >= 1 deposits under a key with no wallet yet provisions
/// exactly once: the first deposit creates the wallet, none of the later
/// ones does, and afterwards the key has exactly the first wallet.
pub proof fn lemma_deposits_provision_once(
    directory: Map<(Seq<char>, u64, u64), Seq<char>>,
    key: (Seq<char>, u64, u64),
    wallets: Seq<Seq<char>>,
)
    requires
        !directory.contains_key(key),
        wallets.len() >= 1,
    ensures
        provisions(directory, key),
        forall|i: int|
            1 <= i < wallets.len() ==> !provisions(
                #[trigger] after_deposits(directory, key, wallets.take(i)),
                key,
            ),
        after_deposits(directory, key, wallets).contains_key(key),
        after_deposits(directory, key, wallets)[key] == wallets[0],
    decreases wallets.len(),
{
    if wallets.len() == 1 {
        assert(wallets.drop_last() =~= Seq::<Seq<char>>::empty());
        assert(wallets.last() == wallets[0]);
        assert(after_deposits(directory, key, wallets.drop_last()) == directory);
        assert(after_deposits(directory, key, wallets) == registered(directory, key, wallets[0]));
    } else {
        let init = wallets.drop_last();
        lemma_deposits_provision_once(directory, key, init);
        assert(init[0] == wallets[0]);
        let before = after_deposits(directory, key, init);
        assert(!provisions(before, key));
        assert(after_deposits(directory, key, wallets) == before);
        assert forall|i: int|
            1 <= i < wallets.len() implies !provisions(
                #[trigger] after_deposits(directory, key, wallets.take(i)),
                key,
            ) by {
            if i < wallets.len() - 1 {
                assert(init.take(i) =~= wallets.take(i));
                assert(!provisions(after_deposits(directory, key, init.take(i)), key));
            } else {
                assert(wallets.take(i) =~= init);
            }
        }
    }
}

/// A vault owned by `sender`, with no wallets and no whitelist.
pub fn instantiate(sender: String, msg: InstantiateMsg) -> (r: VaultStore)
    ensures
        r.config == (ConfigResponse {
            owner: sender,
            whitelist: r.config.whitelist,
            validator_address: msg.validator_address,
            lock_wallet_contract_code_id: msg.lock_wallet_contract_code_id,
            valid_durations: msg.valid_durations,
            min_deposit_default: msg.min_deposit_default,
            min_deposit_custom: None,
        }),
        r.config.whitelist@.len() == 0,
        r.directory@ == Map::<(Seq<char>, u64, u64), Seq<char>>::empty(),
        r.pending_deposit is None,
        r.config.wf(),
{
    VaultStore {
        config: ConfigResponse {
            owner: sender,
            whitelist: Vec::new(),
            validator_address: msg.validator_address,
            lock_wallet_contract_code_id: msg.lock_wallet_contract_code_id,
            valid_durations: msg.valid_durations,
            min_deposit_default: msg.min_deposit_default,
            min_deposit_custom: None,
        },
        directory: Directory::new(),
        pending_deposit: None,
    }
}

/// Succeeds exactly when the sender is the owner.
pub fn validate_contract_owner(store: &VaultStore, sender: &String) -> (r: Result<(), ContractError>)
    ensures
        r is Ok <==> sender@ == store.config.owner@,
        r is Err ==> r matches Err(ContractError::Unauthorized),
{
    if *sender != store.config.owner {
        return Err(ContractError::Unauthorized);
    }
    Ok(())
}

/// Succeeds exactly when the sender is the owner or whitelisted.
pub fn validate_contract_whitelist(store: &VaultStore, sender: &String) -> (r: Result<
    (),
    ContractError,
>)
    ensures
        r is Ok <==> whitelisted(store.config, sender@),
        r is Err ==> r matches Err(ContractError::Unauthorized),
{
    if *sender == store.config.owner {
        return Ok(());
    }
    let list = &store.config.whitelist;
    let mut i: usize = 0;
    while i < list.len()
        invariant
            i <= list@.len(),
            list == &store.config.whitelist,
            sender@ != store.config.owner@,
            forall|j: int| 0 <= j < i ==> (#[trigger] list@[j])@ != sender@,
        decreases list@.len() - i,
    {
        if list[i] == *sender {
            return Ok(());
        }
        i = i + 1;
    }
    Err(ContractError::Unauthorized)
}

/// The minimum deposit of `denom`.
pub fn min_deposit(config: &ConfigResponse, denom: &String) -> (r: u64)
    ensures
        r == min_deposit_of(*config, denom@),
{
    match &config.min_deposit_custom {
        None => config.min_deposit_default,
        Some(v) => {
            let mut i: usize = 0;
            proof {
                assert(v@.subrange(0, v@.len() as int) =~= v@);
            }
            while i < v.len()
                invariant
                    config.min_deposit_custom == Some(*v),
                    i <= v@.len(),
                    first_minimum(v@, denom@, config.min_deposit_default) == first_minimum(
                        v@.subrange(i as int, v@.len() as int),
                        denom@,
                        config.min_deposit_default,
                    ),
                decreases v@.len() - i,
            {
                proof {
                    let t = v@.subrange(i as int, v@.len() as int);
                    assert(t.drop_first() =~= v@.subrange(i as int + 1, v@.len() as int));
                    assert(t[0] == v@[i as int]);
                }
                if v[i].denom == *denom {
                    return v[i].amount;
                }
                i = i + 1;
            }
            proof {
                assert(v@.subrange(i as int, v@.len() as int).len() == 0);
            }
            config.min_deposit_default
        },
    }
}

/// Every coin sent reaches its minimum, and the duration is one of the
/// valid ones; the minimum is checked first.
pub fn validate_min_deposit_and_duration(
    store: &VaultStore,
    funds: &Vec<Coin>,
    duration: u64,
) -> (r: Result<(), ContractError>)
    ensures
        r is Ok <==> funds_meet_minimum(store.config, funds@)
            && store.config.valid_durations@.contains(duration),
        r is Err ==> r matches Err(ContractError::ValidationError { .. }),
        !funds_meet_minimum(store.config, funds@) ==> (r matches Err(
            ContractError::ValidationError { val },
        ) && val@ == "Fund is too low"@),
        funds_meet_minimum(store.config, funds@) && !store.config.valid_durations@.contains(
            duration,
        ) ==> (r matches Err(ContractError::ValidationError { val }) && val@
            == "Duration is invalid"@),
{
    let mut i: usize = 0;
    while i < funds.len()
        invariant
            i <= funds@.len(),
            forall|j: int|
                0 <= j < i ==> (#[trigger] funds@[j]).amount >= min_deposit_of(
                    store.config,
                    funds@[j].denom@,
                ) as u128,
        decreases funds@.len() - i,
    {
        let m = min_deposit(&store.config, &funds[i].denom);
        if funds[i].amount < m as u128 {
            return Err(ContractError::ValidationError { val: String::from_str("Fund is too low") });
        }
        i = i + 1;
    }
    let durations = &store.config.valid_durations;
    let mut j: usize = 0;
    while j < durations.len()
        invariant
            j <= durations@.len(),
            durations == &store.config.valid_durations,
            funds_meet_minimum(store.config, funds@),
            forall|k: int| 0 <= k < j ==> durations@[k] != duration,
        decreases durations@.len() - j,
    {
        if durations[j] == duration {
            assert(durations@[j as int] == duration);
            return Ok(());
        }
        j = j + 1;
    }
    Err(ContractError::ValidationError { val: String::from_str("Duration is invalid") })
}

/// The wallet of (sender, pool, duration), or `WalletNotFound`.
pub fn get_lock_wallet(store: &VaultStore, sender: &String, pool_id: u64, duration: u64) -> (r:
    Result<String, ContractError>)
    ensures
        r is Ok <==> store.directory@.contains_key((sender@, pool_id, duration)),
        r matches Ok(w) ==> w@ == store.directory@[(sender@, pool_id, duration)],
        r is Err ==> r matches Err(ContractError::WalletNotFound),
{
    match store.directory.get(sender, pool_id, duration) {
        Some(w) => Ok(w),
        None => Err(ContractError::WalletNotFound),
    }
}

/// Creates a lock wallet administered by the vault, tracked.
pub fn create_lock_wallet(store: &VaultStore, contract: &String) -> (r: Result<
    Response<VaultReply>,
    ContractError,
>)
    ensures
        r matches Ok(resp) && resp.calls@.len() == 1 && resp.calls@[0].reply == Some(
            VaultReply::InstantiateLockWallet,
        ) && is_wallet_creation(
            resp.calls@[0].call,
            contract@,
            store.config.lock_wallet_contract_code_id,
        ),
{
    let mut resp = Response::new();
    resp.add_submessage(
        Call::InstantiateWallet {
            admin: contract.clone(),
            code_id: store.config.lock_wallet_contract_code_id,
        },
        VaultReply::InstantiateLockWallet,
    );
    Ok(resp)
}

/// Forwards a deposit, with its funds, to the wallet at `wallet_address`;
/// it delegates to the configured validator where asked to.
pub fn deposit_to_lock_wallet(
    store: &VaultStore,
    wallet_address: String,
    deposit_params: DepositParamsState,
) -> (r: Result<Response<VaultReply>, ContractError>)
    ensures
        r matches Ok(resp) && resp.calls@.len() == 1 && resp.calls@[0].reply is None
            && is_wallet_deposit(
            resp.calls@[0].call,
            wallet_address@,
            deposit_params.pool_id,
            deposit_params.duration,
            validator_for(store.config, deposit_params.is_superfluid_staking),
            deposit_params.share_out_min_amount@,
            coins_view(deposit_params.funds@),
        ),
{
    let validator_address = if deposit_params.is_superfluid_staking {
        Some(store.config.validator_address.clone())
    } else {
        None
    };
    let msg = wallet::ExecuteMsg::Deposit {
        pool_id: deposit_params.pool_id,
        duration: deposit_params.duration,
        validator_address,
        share_out_min_amount: deposit_params.share_out_min_amount,
    };
    let mut resp = Response::new();
    resp.add_message(
        Call::ExecuteWallet { wallet: wallet_address, msg, funds: deposit_params.funds },
    );
    Ok(resp)
}

/// What a deposit to the vault does.
pub open spec fn deposit_post(
    old: VaultStore,
    new: VaultStore,
    contract: String,
    sender: String,
    funds: Vec<Coin>,
    pool_id: u64,
    duration: u64,
    share_out_min_amount: String,
    is_superfluid_staking: bool,
    r: Result<Response<VaultReply>, ContractError>,
) -> bool {
    &&& (r is Ok <==> funds_meet_minimum(old.config, funds@)
        && old.config.valid_durations@.contains(duration))
    &&& (r is Err ==> (r matches Err(ContractError::ValidationError { .. })) && new == old)
    &&& (r matches Ok(resp) ==> {
        let key = (sender@, pool_id, duration);
        &&& new.config == old.config
        &&& new.directory == old.directory
        &&& resp.calls@.len() == 1
        &&& instantiates(resp.calls@) == provisions(old.directory@, key)
        &&& !provisions(old.directory@, key) ==> {
            &&& new.pending_deposit == old.pending_deposit
            &&& resp.calls@[0].reply is None
            &&& is_wallet_deposit(
                resp.calls@[0].call,
                old.directory@[key],
                pool_id,
                duration,
                validator_for(old.config, is_superfluid_staking),
                share_out_min_amount@,
                coins_view(funds@),
            )
        }
        &&& provisions(old.directory@, key) ==> {
            &&& new.pending_deposit == Some(
                DepositParamsState {
                    sender: sender,
                    pool_id,
                    duration,
                    share_out_min_amount,
                    is_superfluid_staking,
                    funds,
                },
            )
            &&& resp.calls@[0].reply == Some(VaultReply::InstantiateLockWallet)
            &&& is_wallet_creation(
                resp.calls@[0].call,
                contract@,
                old.config.lock_wallet_contract_code_id,
            )
        }
        &&& old.pending_deposit is None ==> settled(new, resp.calls@)
    })
    &&& (!funds_meet_minimum(old.config, funds@) ==> (r matches Err(
        ContractError::ValidationError { val },
    ) && val@ == "Fund is too low"@))
    &&& (funds_meet_minimum(old.config, funds@) && !old.config.valid_durations@.contains(duration)
        ==> (r matches Err(ContractError::ValidationError { val }) && val@
        == "Duration is invalid"@))
}

/// Deposits `funds` for the sender into its wallet of (pool, duration). With
/// no such wallet yet, keeps the deposit and creates the wallet; the
/// creation's reply registers it and forwards the deposit.
pub fn deposit(
    store: &mut VaultStore,
    contract: &String,
    sender: &String,
    funds: Vec<Coin>,
    pool_id: u64,
    duration: u64,
    share_out_min_amount: String,
    is_superfluid_staking: bool,
) -> (r: Result<Response<VaultReply>, ContractError>)
    ensures
        deposit_post(*old(store), *final(store), *contract, *sender, funds, pool_id, duration, share_out_min_amount, is_superfluid_staking, r),
{
    validate_min_deposit_and_duration(store, &funds, duration)?;
    let wallet = store.directory.get(sender, pool_id, duration);
    let deposit_params = DepositParamsState {
        sender: sender.clone(),
        pool_id,
        duration,
        share_out_min_amount,
        is_superfluid_staking,
        funds,
    };
    match wallet {
        Some(w) => {
            let r = deposit_to_lock_wallet(store, w, deposit_params);
            proof {
                let resp = r->Ok_0;
                assert(resp.calls@[0].reply is None);
                assert(!(resp.calls@[0].call is InstantiateWallet));
            }
            r
        },
        None => {
            store.pending_deposit = Some(deposit_params);
            let r = create_lock_wallet(store, contract);
            proof {
                let resp = r->Ok_0;
                assert(resp.calls@[0].call is InstantiateWallet);
                assert(resp.calls@[0].reply is Some);
            }
            r
        },
    }
}

/// The vault's settings after an update with `p`.
pub open spec fn updated(c: ConfigResponse, p: ConfigParams) -> ConfigResponse {
    ConfigResponse {
        owner: c.owner,
        whitelist: match p.whitelist {
            Some(w) => w,
            None => c.whitelist,
        },
        validator_address: match p.validator_address {
            Some(v) => v,
            None => c.validator_address,
        },
        lock_wallet_contract_code_id: match p.lock_wallet_contract_code_id {
            Some(v) => v,
            None => c.lock_wallet_contract_code_id,
        },
        valid_durations: match p.valid_durations {
            Some(v) => v,
            None => c.valid_durations,
        },
        min_deposit_default: match p.min_deposit_default {
            Some(v) => v,
            None => c.min_deposit_default,
        },
        min_deposit_custom: match p.min_deposit_custom {
            Some(v) => Some(v),
            None => c.min_deposit_custom,
        },
    }
}

/// The update names a whitelist longer than allowed.
pub open spec fn whitelist_too_long(p: ConfigParams) -> bool {
    p.whitelist matches Some(w) && w@.len() > WHITELIST_MAX_LENGTH
}

/// What a settings update does.
pub open spec fn update_config_post(
    old: VaultStore,
    new: VaultStore,
    sender: String,
    nconfig: ConfigParams,
    r: Result<Response<VaultReply>, ContractError>,
) -> bool {
    &&& (sender@ != old.config.owner@ ==> r matches Err(ContractError::Unauthorized))
    &&& (sender@ == old.config.owner@ && whitelist_too_long(nconfig) ==> r matches Err(
        ContractError::ValidationError { .. },
    ))
    &&& (r is Ok <==> sender@ == old.config.owner@ && !whitelist_too_long(nconfig))
    &&& (r is Err ==> new == old)
    &&& (r matches Ok(resp) ==> {
        &&& resp.calls@.len() == 0
        &&& new.config == updated(old.config, nconfig)
        &&& new.directory == old.directory
        &&& new.pending_deposit == old.pending_deposit
    })
}

/// Replaces the settings that `nconfig` names; only the owner may. A
/// whitelist longer than the maximum is refused and nothing changes.
pub fn update_config(store: &mut VaultStore, sender: &String, nconfig: ConfigParams) -> (r: Result<
    Response<VaultReply>,
    ContractError,
>)
    requires
        params_wf(nconfig),
    ensures
        update_config_post(*old(store), *final(store), *sender, nconfig, r),
        old(store).config.wf() ==> final(store).config.wf(),
{
    validate_contract_owner(store, sender)?;
    if let Some(w) = &nconfig.whitelist {
        if w.len() > WHITELIST_MAX_LENGTH {
            return Err(
                ContractError::ValidationError { val: String::from_str("Too many whitelists") },
            );
        }
    }
    let ConfigParams {
        validator_address,
        lock_wallet_contract_code_id,
        whitelist,
        valid_durations,
        min_deposit_custom,
        min_deposit_default,
    } = nconfig;
    if let Some(v) = validator_address {
        store.config.validator_address = v;
    }
    if let Some(v) = lock_wallet_contract_code_id {
        store.config.lock_wallet_contract_code_id = v;
    }
    if let Some(v) = valid_durations {
        store.config.valid_durations = v;
    }
    if let Some(v) = min_deposit_default {
        store.config.min_deposit_default = v;
    }
    if let Some(v) = min_deposit_custom {
        store.config.min_deposit_custom = Some(v);
    }
    if let Some(v) = whitelist {
        store.config.whitelist = v;
    }
    Ok(Response::new())
}

/// The restake `item` forwarded to its wallet.
pub open spec fn is_restake_forward(c: Call, item: RestakeParams) -> bool {
    is_wallet_call(
        c,
        item.contract_address@,
        wallet::ExecuteMsg::Restake {
            add_liquidity: item.add_liquidity,
            duration: item.duration,
            swap: item.swap,
        },
    )
}

/// What a restake through the vault does.
pub open spec fn restake_post(
    store: VaultStore,
    sender: String,
    params: Vec<RestakeParams>,
    r: Result<Response<VaultReply>, ContractError>,
) -> bool {
    &&& (r is Ok <==> whitelisted(store.config, sender@))
    &&& (r is Err ==> r matches Err(ContractError::Unauthorized))
    &&& (r matches Ok(resp) ==> {
        &&& resp.calls@.len() == params@.len()
        &&& forall|i: int|
            0 <= i < params@.len() ==> (#[trigger] resp.calls@[i]).reply is None
                && is_restake_forward(resp.calls@[i].call, params@[i])
    })
}

/// Forwards each restake to its wallet, in order; only the owner and
/// whitelisted addresses may.
pub fn restake(store: &VaultStore, sender: &String, params: Vec<RestakeParams>) -> (r: Result<
    Response<VaultReply>,
    ContractError,
>)
    ensures
        restake_post(*store, *sender, params, r),
{
    validate_contract_whitelist(store, sender)?;
    let ghost p0 = params@;
    let n = params.len();
    let mut rest = params;
    let mut resp: Response<VaultReply> = Response::new();
    let mut i: usize = 0;
    while rest.len() > 0
        invariant
            n == p0.len(),
            i <= p0.len(),
            rest@ == p0.subrange(i as int, p0.len() as int),
            resp.calls@.len() == i,
            forall|j: int|
                0 <= j < i ==> (#[trigger] resp.calls@[j]).reply is None && is_restake_forward(
                    resp.calls@[j].call,
                    p0[j],
                ),
        decreases rest@.len(),
    {
        let item = rest.remove(0);
        proof {
            assert(item == p0[i as int]);
            assert(rest@ =~= p0.subrange(i as int + 1, p0.len() as int));
        }
        let RestakeParams { contract_address, add_liquidity, duration, swap } = item;
        let msg = wallet::ExecuteMsg::Restake { add_liquidity, duration, swap };
        resp.add_message(Call::ExecuteWallet { wallet: contract_address, msg, funds: Vec::new() });
        i = i + 1;
    }
    Ok(resp)
}

/// What an unbond through the vault does.
pub open spec fn unbond_post(
    store: VaultStore,
    sender: String,
    pool_id: u64,
    duration: u64,
    lock_id: u64,
    is_superfluid_staking: bool,
    r: Result<Response<VaultReply>, ContractError>,
) -> bool {
    &&& (r is Ok <==> store.directory@.contains_key((sender@, pool_id, duration)))
    &&& (r is Err ==> r matches Err(ContractError::WalletNotFound))
    &&& (r matches Ok(resp) ==> resp.calls@.len() == 1 && resp.calls@[0].reply is None
        && is_wallet_call(
        resp.calls@[0].call,
        store.directory@[(sender@, pool_id, duration)],
        wallet::ExecuteMsg::Unbond { lock_id, is_superfluid_staking },
    ))
}

/// Forwards an unbond to the sender's wallet of (pool, duration).
pub fn unbond(
    store: &VaultStore,
    sender: &String,
    pool_id: u64,
    duration: u64,
    lock_id: u64,
    is_superfluid_staking: bool,
) -> (r: Result<Response<VaultReply>, ContractError>)
    ensures
        unbond_post(*store, *sender, pool_id, duration, lock_id, is_superfluid_staking, r),
{
    let wallet_address = get_lock_wallet(store, sender, pool_id, duration)?;
    let msg = wallet::ExecuteMsg::Unbond { lock_id, is_superfluid_staking };
    let mut resp = Response::new();
    resp.add_message(Call::ExecuteWallet { wallet: wallet_address, msg, funds: Vec::new() });
    Ok(resp)
}

/// What a withdrawal through the vault does.
pub open spec fn withdraw_post(
    store: VaultStore,
    sender: String,
    pool_id: u64,
    duration: u64,
    amount: String,
    denom: String,
    r: Result<Response<VaultReply>, ContractError>,
) -> bool {
    &&& (r is Ok <==> store.directory@.contains_key((sender@, pool_id, duration)))
    &&& (r is Err ==> r matches Err(ContractError::WalletNotFound))
    &&& (r matches Ok(resp) ==> resp.calls@.len() == 1 && resp.calls@[0].reply is None
        && is_wallet_call(
        resp.calls@[0].call,
        store.directory@[(sender@, pool_id, duration)],
        wallet::ExecuteMsg::Withdraw { receiver: sender, amount, denom },
    ))
}

/// Has the sender's wallet of (pool, duration) send it `amount` of `denom`.
pub fn withdraw(
    store: &VaultStore,
    sender: &String,
    pool_id: u64,
    duration: u64,
    amount: String,
    denom: String,
) -> (r: Result<Response<VaultReply>, ContractError>)
    ensures
        withdraw_post(*store, *sender, pool_id, duration, amount, denom, r),
{
    let wallet_address = get_lock_wallet(store, sender, pool_id, duration)?;
    let msg = wallet::ExecuteMsg::Withdraw { receiver: sender.clone(), amount, denom };
    let mut resp = Response::new();
    resp.add_message(Call::ExecuteWallet { wallet: wallet_address, msg, funds: Vec::new() });
    Ok(resp)
}

/// What a withdraw-all through the vault does.
pub open spec fn withdraw_all_post(
    store: VaultStore,
    sender: String,
    pool_id: u64,
    duration: u64,
    lp_tokens_out: Option<Vec<RemoveLiquidityParams>>,
    r: Result<Response<VaultReply>, ContractError>,
) -> bool {
    &&& (r is Ok <==> store.directory@.contains_key((sender@, pool_id, duration)))
    &&& (r is Err ==> r matches Err(ContractError::WalletNotFound))
    &&& (r matches Ok(resp) ==> resp.calls@.len() == 1 && resp.calls@[0].reply is None
        && is_wallet_call(
        resp.calls@[0].call,
        store.directory@[(sender@, pool_id, duration)],
        wallet::ExecuteMsg::WithdrawAll { receiver: sender, lp_tokens_out },
    ))
}

/// Has the sender's wallet of (pool, duration) exit the given positions and
/// send it everything it holds.
pub fn withdraw_all(
    store: &VaultStore,
    sender: &String,
    pool_id: u64,
    duration: u64,
    lp_tokens_out: Option<Vec<RemoveLiquidityParams>>,
) -> (r: Result<Response<VaultReply>, ContractError>)
    ensures
        withdraw_all_post(*store, *sender, pool_id, duration, lp_tokens_out, r),
{
    let wallet_address = get_lock_wallet(store, sender, pool_id, duration)?;
    let msg = wallet::ExecuteMsg::WithdrawAll { receiver: sender.clone(), lp_tokens_out };
    let mut resp = Response::new();
    resp.add_message(Call::ExecuteWallet { wallet: wallet_address, msg, funds: Vec::new() });
    Ok(resp)
}

/// What a token retrieval does.
pub open spec fn retrieve_tokens_post(
    store: VaultStore,
    sender: String,
    balances: Vec<Coin>,
    r: Result<Response<VaultReply>, ContractError>,
) -> bool {
    &&& (r is Ok <==> sender@ == store.config.owner@)
    &&& (r is Err ==> r matches Err(ContractError::Unauthorized))
    &&& (r matches Ok(resp) ==> resp.calls@.len() == 1 && resp.calls@[0].reply is None
        && is_transfer(resp.calls@[0].call, sender@, coins_view(balances@)))
}

/// Sends the owner everything the vault holds, `balances`; only the owner may.
pub fn retrieve_tokens(store: &VaultStore, sender: &String, balances: Vec<Coin>) -> (r: Result<
    Response<VaultReply>,
    ContractError,
>)
    ensures
        retrieve_tokens_post(*store, *sender, balances, r),
{
    validate_contract_owner(store, sender)?;
    let mut resp = Response::new();
    resp.add_message(Call::Transfer { receiver: sender.clone(), coins: balances });
    Ok(resp)
}

impl VaultReply {
    pub open spec fn spec_id(self) -> u64 {
        1
    }

    /// The number under which the host reports this tag.
    pub fn id(&self) -> (r: u64)
        ensures
            r == self.spec_id(),
    {
        1
    }

    /// The tag that a number stands for, if any.
    pub fn from_id(id: u64) -> (r: Option<VaultReply>)
        ensures
            r == vault_tag_of(id),
    {
        if id == 1 {
            Some(VaultReply::InstantiateLockWallet)
        } else {
            None
        }
    }
}

/// The tag that the host's number `id` stands for.
pub open spec fn vault_tag_of(id: u64) -> Option<VaultReply> {
    if id == 1 {
        Some(VaultReply::InstantiateLockWallet)
    } else {
        None
    }
}

/// The address of the contract that an instantiation reply reports.
pub uninterp spec fn instantiated_address(data: Seq<u8>) -> Option<Seq<char>>;

/// Relies on `cw0::parse_instantiate_response_data`, a protobuf decode of
/// the bytes alone, for the new contract's address.
#[verifier::external_body]
fn parse_instantiate_reply(data: &Vec<u8>) -> (r: Result<String, String>)
    ensures
        r matches Ok(a) ==> instantiated_address(data@) == Some(a@),
        r is Err ==> instantiated_address(data@) is None,
{
    cw0::parse_instantiate_response_data(data.as_slice()).map(|res| res.contract_address).map_err(
        |e| e.to_string(),
    )
}

/// The wallet at `wallet` was created for the pending deposit: it is
/// registered under the deposit's key, the slot is cleared, and the deposit
/// is forwarded to it.
pub open spec fn wallet_registered(
    old: VaultStore,
    new: VaultStore,
    wallet: Seq<char>,
    r: Result<Response<VaultReply>, ContractError>,
) -> bool {
    let p = old.pending_deposit->0;
    &&& new.config == old.config
    &&& new.pending_deposit is None
    &&& new.directory@ == registered(old.directory@, (p.sender@, p.pool_id, p.duration), wallet)
    &&& r matches Ok(resp)
    &&& resp.calls@.len() == 1
    &&& resp.calls@[0].reply is None
    &&& is_wallet_deposit(
        resp.calls@[0].call,
        wallet,
        p.pool_id,
        p.duration,
        validator_for(old.config, p.is_superfluid_staking),
        p.share_out_min_amount@,
        coins_view(p.funds@),
    )
    &&& !instantiates(resp.calls@)
    &&& settled(new, resp.calls@)
}

/// The whole of the reply to a wallet creation.
pub open spec fn instantiate_post(
    old: VaultStore,
    new: VaultStore,
    result: Result<Option<Vec<u8>>, String>,
    r: Result<Response<VaultReply>, ContractError>,
) -> bool {
    match result {
        Err(e) => new == old && r == Err::<Response<VaultReply>, ContractError>(
            ContractError::CustomError { val: e },
        ),
        Ok(Some(b)) if instantiated_address(b@) is Some && old.pending_deposit is Some => {
            wallet_registered(old, new, instantiated_address(b@)->0, r)
        },
        Ok(None) => new == old && (r matches Err(ContractError::CustomError { val }) && val@
            == "Missing reply data"@),
        _ => new == old && (r matches Err(ContractError::CustomError { .. })),
    }
}

/// Registers the wallet created for the pending deposit and forwards the
/// deposit to it.
pub fn wallet_created(store: &mut VaultStore, wallet_address: String) -> (r: Result<
    Response<VaultReply>,
    ContractError,
>)
    requires
        old(store).pending_deposit is Some,
    ensures
        wallet_registered(*old(store), *final(store), wallet_address@, r),
{
    let p = match store.pending_deposit.take() {
        Some(p) => p,
        None => {
            return Err(ContractError::CustomError { val: String::from_str("no deposit") });
        },
    };
    store.directory.insert(p.sender.clone(), p.pool_id, p.duration, wallet_address.clone());
    let r = deposit_to_lock_wallet(store, wallet_address, p);
    proof {
        let resp = r->Ok_0;
        assert(resp.calls@[0].reply is None);
        assert(!(resp.calls@[0].call is InstantiateWallet));
    }
    r
}

/// Resumes a deposit when the creation of its wallet returns.
pub fn handle_instantiate_lock_wallet(
    store: &mut VaultStore,
    result: Result<Option<Vec<u8>>, String>,
) -> (r: Result<Response<VaultReply>, ContractError>)
    ensures
        instantiate_post(*old(store), *final(store), result, r),
{
    match result {
        Err(e) => Err(ContractError::CustomError { val: e }),
        Ok(None) => Err(ContractError::CustomError { val: String::from_str("Missing reply data") }),
        Ok(Some(b)) => {
            let address = match parse_instantiate_reply(&b) {
                Ok(a) => a,
                Err(e) => {
                    return Err(ContractError::CustomError { val: e });
                },
            };
            if store.pending_deposit.is_none() {
                return Err(ContractError::CustomError { val: String::from_str("No deposit in flight") });
            }
            wallet_created(store, address)
        },
    }
}

/// Routes the outcome of a tracked call to the handler of its tag. An
/// unknown tag fails.
pub fn reply(store: &mut VaultStore, id: u64, result: Result<Option<Vec<u8>>, String>) -> (r:
    Result<Response<VaultReply>, ContractError>)
    ensures
        vault_tag_of(id) is None ==> *final(store) == *old(store) && (r matches Err(
            ContractError::CustomError { val },
        ) && val@ == "Unknown reply id: "@ + decimal(id as nat)),
        vault_tag_of(id) is Some ==> instantiate_post(*old(store), *final(store), result, r),
{
    match VaultReply::from_id(id) {
        Some(VaultReply::InstantiateLockWallet) => handle_instantiate_lock_wallet(store, result),
        None => {
            let mut val = String::from_str("Unknown reply id: ");
            let n = amount_text(id as u128);
            val.append(n.as_str());
            Err(ContractError::CustomError { val })
        },
    }
}

/// The operation may only be run by the owner.
pub open spec fn owner_only(msg: ExecuteMsg) -> bool {
    msg is UpdateConfig || msg is RetrieveTokens
}

/// Runs one operation of the vault for `sender`. Updating the settings and
/// retrieving tokens are reserved to the owner, restaking to the owner and
/// the whitelist; the others act on the sender's own wallets. `funds` is what
/// was sent along; `balances` is what the vault holds, which only a token
/// retrieval sends.
pub fn execute(
    store: &mut VaultStore,
    contract: &String,
    sender: &String,
    funds: Vec<Coin>,
    msg: ExecuteMsg,
    balances: Vec<Coin>,
) -> (r: Result<Response<VaultReply>, ContractError>)
    requires
        msg matches ExecuteMsg::UpdateConfig { config } ==> params_wf(config),
    ensures
        owner_only(msg) && sender@ != old(store).config.owner@ ==> r matches Err(
            ContractError::Unauthorized,
        ),
        msg is Restake && !whitelisted(old(store).config, sender@) ==> r matches Err(
            ContractError::Unauthorized,
        ),
        r is Err ==> *final(store) == *old(store),
        final(store).directory == old(store).directory,
        old(store).pending_deposit is None ==> (r matches Ok(resp) ==> settled(
            *final(store),
            resp.calls@,
        )),
        match msg {
            ExecuteMsg::Deposit { pool_id, duration, share_out_min_amount, is_superfluid_staking } => {
                deposit_post(
                    *old(store),
                    *final(store),
                    *contract,
                    *sender,
                    funds,
                    pool_id,
                    duration,
                    share_out_min_amount,
                    is_superfluid_staking,
                    r,
                )
            },
            ExecuteMsg::Restake { params } => *final(store) == *old(store) && restake_post(
                *old(store),
                *sender,
                params,
                r,
            ),
            ExecuteMsg::Unbond { lock_id, pool_id, duration, is_superfluid_staking } => *final(store) == *old(store) && unbond_post(
                *old(store),
                *sender,
                pool_id,
                duration,
                lock_id,
                is_superfluid_staking,
                r,
            ),
            ExecuteMsg::Withdraw { amount, denom, pool_id, duration } => *final(store) == *old(store) && withdraw_post(*old(store), *sender, pool_id, duration, amount, denom, r),
            ExecuteMsg::WithdrawAll { pool_id, duration, lp_tokens_out } => *final(store) == *old(store) && withdraw_all_post(*old(store), *sender, pool_id, duration, lp_tokens_out, r),
            ExecuteMsg::UpdateConfig { config } => update_config_post(
                *old(store),
                *final(store),
                *sender,
                config,
                r,
            ),
            ExecuteMsg::RetrieveTokens => *final(store) == *old(store) && retrieve_tokens_post(
                *old(store),
                *sender,
                balances,
                r,
            ),
        },
        old(store).config.wf() ==> final(store).config.wf(),
{
    match msg {
        ExecuteMsg::Deposit { pool_id, duration, share_out_min_amount, is_superfluid_staking } => {
            deposit(
                store,
                contract,
                sender,
                funds,
                pool_id,
                duration,
                share_out_min_amount,
                is_superfluid_staking,
            )
        },
        ExecuteMsg::Restake { params } => {
            let r = restake(store, sender, params);
            proof {
                if r is Ok {
                    let calls = r->Ok_0.calls@;
                    assert forall|i: int| 0 <= i < calls.len() implies calls[i].reply
                        != Some(VaultReply::InstantiateLockWallet) by {
                        assert(calls[i].reply is None);
                    }
                }
            }
            r
        },
        ExecuteMsg::Unbond { lock_id, pool_id, duration, is_superfluid_staking } => {
            let r = unbond(store, sender, pool_id, duration, lock_id, is_superfluid_staking);
            proof {
                if r is Ok {
                    assert(r->Ok_0.calls@[0].reply is None);
                }
            }
            r
        },
        ExecuteMsg::Withdraw { amount, denom, pool_id, duration } => {
            let r = withdraw(store, sender, pool_id, duration, amount, denom);
            proof {
                if r is Ok {
                    assert(r->Ok_0.calls@[0].reply is None);
                }
            }
            r
        },
        ExecuteMsg::WithdrawAll { pool_id, duration, lp_tokens_out } => {
            let r = withdraw_all(store, sender, pool_id, duration, lp_tokens_out);
            proof {
                if r is Ok {
                    assert(r->Ok_0.calls@[0].reply is None);
                }
            }
            r
        },
        ExecuteMsg::UpdateConfig { config } => update_config(store, sender, config),
        ExecuteMsg::RetrieveTokens => {
            let r = retrieve_tokens(store, sender, balances);
            proof {
                if r is Ok {
                    assert(r->Ok_0.calls@[0].reply is None);
                }
            }
            r
        },
    }
}

/// `r` lists the registered wallet `e`.
pub open spec fn lists(e: WalletEntry, r: LockWalletResponse) -> bool {
    &&& r.account@ == e.account@
    &&& r.contract_address@ == e.wallet@
    &&& r.pool_id == e.pool_id
    &&& r.duration == e.duration
}

fn response_of(e: &WalletEntry) -> (r: LockWalletResponse)
    ensures
        lists(*e, r),
{
    LockWalletResponse {
        account: e.account.clone(),
        contract_address: e.wallet.clone(),
        pool_id: e.pool_id,
        duration: e.duration,
    }
}

/// One page of the directory listing: `entries` are the registered wallets
/// past the page's lower bound, in the directory's order, and the first
/// `limit` of them are listed, in that order.
pub fn get_wallets(entries: &Vec<WalletEntry>, limit: u64) -> (r: Vec<LockWalletResponse>)
    ensures
        r@.len() == if (limit as int) < entries@.len() {
            limit as int
        } else {
            entries@.len() as int
        },
        forall|i: int| 0 <= i < r@.len() ==> lists(entries@[i], #[trigger] r@[i]),
{
    let mut r: Vec<LockWalletResponse> = Vec::new();
    let mut i: usize = 0;
    while i < entries.len() && (i as u64) < limit
        invariant
            i <= entries@.len(),
            i <= limit,
            r@.len() == i,
            forall|j: int| 0 <= j < i ==> lists(entries@[j], #[trigger] r@[j]),
        decreases entries@.len() - i,
    {
        r.push(response_of(&entries[i]));
        i = i + 1;
    }
    r
}

/// The wallets of one account: `entries` are its registered wallets, in the
/// directory's order; each is listed under `address`, as the caller wrote it.
pub fn get_lock_wallet_by_account(address: &String, entries: &Vec<WalletEntry>) -> (r: Vec<
    LockWalletResponse,
>)
    ensures
        r@.len() == entries@.len(),
        forall|i: int|
            0 <= i < r@.len() ==> (#[trigger] r@[i]).account@ == address@
                && r@[i].contract_address@ == entries@[i].wallet@ && r@[i].pool_id
                == entries@[i].pool_id && r@[i].duration == entries@[i].duration,
{
    let mut r: Vec<LockWalletResponse> = Vec::new();
    let mut i: usize = 0;
    while i < entries.len()
        invariant
            i <= entries@.len(),
            r@.len() == i,
            forall|j: int|
                0 <= j < i ==> (#[trigger] r@[j]).account@ == address@ && r@[j].contract_address@
                    == entries@[j].wallet@ && r@[j].pool_id == entries@[j].pool_id
                    && r@[j].duration == entries@[j].duration,
        decreases entries@.len() - i,
    {
        let e = &entries[i];
        r.push(
            LockWalletResponse {
                account: address.clone(),
                contract_address: e.wallet.clone(),
                pool_id: e.pool_id,
                duration: e.duration,
            },
        );
        i = i + 1;
    }
    r
}

} // verus!
