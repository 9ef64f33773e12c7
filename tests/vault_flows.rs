use lockvault::calls::Call;
use lockvault::common::{AddLiquidityParams, Coin, SwapParams};
use lockvault::error::ContractError;
use lockvault::vault::{
    self, ConfigParams, DenomMinimum, InstantiateMsg, RestakeParams, VaultReply, VaultStore,
};
use lockvault::wallet;

fn new_vault() -> VaultStore {
    vault::instantiate(
        "admin".to_string(),
        InstantiateMsg {
            min_deposit_default: 10,
            valid_durations: vec![86400, 604800],
            validator_address: "valoper1".to_string(),
            lock_wallet_contract_code_id: 42,
        },
    )
}

fn vault_addr() -> String {
    "vault".to_string()
}

fn uosmo(amount: u128) -> Vec<Coin> {
    vec![Coin { denom: "uosmo".to_string(), amount }]
}

/// The protobuf reply of an instantiation: field 1 holds the new address.
fn instantiate_reply(address: &str) -> Vec<u8> {
    let mut v = vec![0x0a, address.len() as u8];
    v.extend_from_slice(address.as_bytes());
    v
}

fn provision(s: &mut VaultStore, owner: &str, pool_id: u64, duration: u64, address: &str) {
    vault::deposit(s, &vault_addr(), &owner.to_string(), uosmo(100), pool_id, duration, "1".to_string(), false)
        .unwrap();
    vault::reply(s, 1, Ok(Some(instantiate_reply(address)))).unwrap();
}

#[test]
fn first_deposit_provisions_wallet_then_forwards() {
    let mut s = new_vault();
    let resp = vault::deposit(
        &mut s,
        &vault_addr(),
        &"alice".to_string(),
        uosmo(100),
        1,
        86400,
        "1".to_string(),
        false,
    )
    .unwrap();
    assert_eq!(resp.calls.len(), 1);
    assert_eq!(resp.calls[0].reply, Some(VaultReply::InstantiateLockWallet));
    assert!(matches!(&resp.calls[0].call, Call::InstantiateWallet { admin, code_id: 42 } if admin == "vault"));
    let p = s.pending_deposit.as_ref().unwrap();
    assert_eq!((p.sender.as_str(), p.pool_id, p.duration), ("alice", 1, 86400));
    assert_eq!(p.funds.len(), 1);
    assert_eq!((p.funds[0].denom.as_str(), p.funds[0].amount), ("uosmo", 100));

    let fwd = vault::reply(&mut s, 1, Ok(Some(instantiate_reply("wallet-a")))).unwrap();
    assert!(s.pending_deposit.is_none());
    assert_eq!(s.directory.get(&"alice".to_string(), 1, 86400), Some("wallet-a".to_string()));
    assert_eq!(fwd.calls.len(), 1);
    assert_eq!(fwd.calls[0].reply, None);
    let (msg, funds) = match &fwd.calls[0].call {
        Call::ExecuteWallet { wallet, msg, funds } => {
            assert_eq!(wallet, "wallet-a");
            (msg, funds)
        }
        _ => panic!("expected the forwarded deposit"),
    };
    assert_eq!((funds[0].denom.as_str(), funds[0].amount), ("uosmo", 100));
    let (pool_id, duration, validator_address, min) = match msg {
        wallet::ExecuteMsg::Deposit { pool_id, duration, validator_address, share_out_min_amount } => {
            (*pool_id, *duration, validator_address.clone(), share_out_min_amount.clone())
        }
        _ => panic!("expected a deposit"),
    };
    assert_eq!((pool_id, duration, validator_address, min.as_str()), (1, 86400, None, "1"));

    // The new wallet, executing the forwarded deposit, joins the pool with 100uosmo.
    let mut w = wallet::instantiate("vault".to_string(), wallet::InstantiateMsg {});
    let join = wallet::deposit(&mut w, &"wallet-a".to_string(), &"vault".to_string(), funds, pool_id, duration, None, min)
        .unwrap();
    match &join.calls[0].call {
        Call::JoinPool { sender, pool_id, amount, denom, .. } => {
            assert_eq!((sender.as_str(), *pool_id, amount.as_str(), denom.as_str()), ("wallet-a", 1, "100", "uosmo"));
        }
        _ => panic!("expected a join"),
    }
}

#[test]
fn second_deposit_reuses_wallet_without_instantiation() {
    let mut s = new_vault();
    provision(&mut s, "alice", 1, 86400, "wallet-a");
    let resp = vault::deposit(&mut s, &vault_addr(), &"alice".to_string(), uosmo(50), 1, 86400, "1".to_string(), true)
        .unwrap();
    assert!(s.pending_deposit.is_none());
    assert_eq!(resp.calls.len(), 1);
    assert_eq!(resp.calls[0].reply, None);
    match &resp.calls[0].call {
        Call::ExecuteWallet { wallet, msg, .. } => {
            assert_eq!(wallet, "wallet-a");
            assert!(matches!(msg, wallet::ExecuteMsg::Deposit { validator_address: Some(v), .. } if v == "valoper1"));
        }
        _ => panic!("expected a forwarded deposit"),
    }
    assert_eq!(s.directory.entries.len(), 1);
}

#[test]
fn other_keys_get_their_own_wallets() {
    let mut s = new_vault();
    provision(&mut s, "alice", 1, 86400, "wallet-a");
    provision(&mut s, "alice", 2, 86400, "wallet-b");
    provision(&mut s, "bob", 1, 86400, "wallet-c");
    assert_eq!(s.directory.get(&"alice".to_string(), 1, 86400), Some("wallet-a".to_string()));
    assert_eq!(s.directory.get(&"alice".to_string(), 2, 86400), Some("wallet-b".to_string()));
    assert_eq!(s.directory.get(&"bob".to_string(), 1, 86400), Some("wallet-c".to_string()));
    assert_eq!(s.directory.get(&"bob".to_string(), 1, 604800), None);
}

#[test]
fn deposit_validation_errors() {
    let mut s = new_vault();
    let low = vault::deposit(&mut s, &vault_addr(), &"alice".to_string(), uosmo(9), 1, 86400, "1".to_string(), false);
    match low {
        Err(ContractError::ValidationError { val }) => assert_eq!(val, "Fund is too low"),
        _ => panic!("expected a low-fund error"),
    }
    let both = vault::deposit(&mut s, &vault_addr(), &"alice".to_string(), uosmo(9), 1, 5, "1".to_string(), false);
    assert!(matches!(both, Err(ContractError::ValidationError { val }) if val == "Fund is too low"));
    let bad = vault::deposit(&mut s, &vault_addr(), &"alice".to_string(), uosmo(10), 1, 5, "1".to_string(), false);
    match bad {
        Err(ContractError::ValidationError { val }) => assert_eq!(val, "Duration is invalid"),
        _ => panic!("expected a duration error"),
    }
    assert!(s.pending_deposit.is_none());
}

#[test]
fn custom_minimum_overrides_default() {
    let mut s = new_vault();
    let params = ConfigParams {
        validator_address: None,
        lock_wallet_contract_code_id: None,
        whitelist: None,
        valid_durations: None,
        min_deposit_custom: Some(vec![DenomMinimum { denom: "uatom".to_string(), amount: 1000 }]),
        min_deposit_default: None,
    };
    vault::update_config(&mut s, &"admin".to_string(), params).unwrap();
    assert_eq!(vault::min_deposit(&s.config, &"uatom".to_string()), 1000);
    assert_eq!(vault::min_deposit(&s.config, &"uosmo".to_string()), 10);
    let atoms = vec![Coin { denom: "uatom".to_string(), amount: 999 }];
    let r = vault::deposit(&mut s, &vault_addr(), &"alice".to_string(), atoms, 1, 86400, "1".to_string(), false);
    assert!(matches!(r, Err(ContractError::ValidationError { .. })));
}

#[test]
fn operations_on_missing_wallet_fail() {
    let s = new_vault();
    let a = &"alice".to_string();
    assert!(matches!(vault::unbond(&s, a, 1, 86400, 3, false), Err(ContractError::WalletNotFound)));
    assert!(matches!(
        vault::withdraw(&s, a, 1, 86400, "1".to_string(), "uosmo".to_string()),
        Err(ContractError::WalletNotFound)
    ));
    assert!(matches!(vault::withdraw_all(&s, a, 1, 86400, None), Err(ContractError::WalletNotFound)));
}

#[test]
fn forwarding_operations_reach_the_senders_wallet() {
    let mut s = new_vault();
    provision(&mut s, "alice", 1, 86400, "wallet-a");
    let a = &"alice".to_string();
    let u = vault::unbond(&s, a, 1, 86400, 3, true).unwrap();
    assert!(matches!(&u.calls[0].call, Call::ExecuteWallet { wallet, msg: wallet::ExecuteMsg::Unbond { lock_id: 3, is_superfluid_staking: true }, funds } if wallet == "wallet-a" && funds.is_empty()));
    let w = vault::withdraw(&s, a, 1, 86400, "5".to_string(), "uosmo".to_string()).unwrap();
    assert!(matches!(&w.calls[0].call, Call::ExecuteWallet { msg: wallet::ExecuteMsg::Withdraw { receiver, amount, denom }, .. } if receiver == "alice" && amount == "5" && denom == "uosmo"));
    let all = vault::withdraw_all(&s, a, 1, 86400, None).unwrap();
    assert!(matches!(&all.calls[0].call, Call::ExecuteWallet { msg: wallet::ExecuteMsg::WithdrawAll { receiver, lp_tokens_out: None }, .. } if receiver == "alice"));
}

fn restake_to(wallet: &str) -> RestakeParams {
    RestakeParams {
        contract_address: wallet.to_string(),
        add_liquidity: AddLiquidityParams {
            amount: "10".to_string(),
            denom: "uosmo".to_string(),
            pool_id: 1,
            share_out_min_amount: "1".to_string(),
        },
        duration: 86400,
        swap: Some(SwapParams { pool_id: 2, denom_out: "uatom".to_string(), amount_out_min: "1".to_string() }),
    }
}

#[test]
fn restake_forwards_each_item_in_order() {
    let s = new_vault();
    let resp = vault::restake(&s, &"admin".to_string(), vec![restake_to("w1"), restake_to("w2")]).unwrap();
    assert_eq!(resp.calls.len(), 2);
    for (c, expected) in resp.calls.iter().zip(["w1", "w2"]) {
        assert_eq!(c.reply, None);
        assert!(matches!(&c.call, Call::ExecuteWallet { wallet, msg: wallet::ExecuteMsg::Restake { duration: 86400, swap: Some(_), .. }, .. } if wallet == expected));
    }
}

#[test]
fn restake_allows_whitelist_and_rejects_others() {
    let mut s = new_vault();
    let params = ConfigParams {
        validator_address: None,
        lock_wallet_contract_code_id: None,
        whitelist: Some(vec!["bot".to_string()]),
        valid_durations: None,
        min_deposit_custom: None,
        min_deposit_default: None,
    };
    vault::update_config(&mut s, &"admin".to_string(), params).unwrap();
    assert!(vault::restake(&s, &"bot".to_string(), vec![restake_to("w1")]).is_ok());
    let r = vault::restake(&s, &"eve".to_string(), vec![restake_to("w1")]);
    assert!(matches!(r, Err(ContractError::Unauthorized)));
}

#[test]
fn update_config_is_owner_only_and_bounds_whitelist() {
    let mut s = new_vault();
    let too_many = ConfigParams {
        validator_address: Some("valoper2".to_string()),
        lock_wallet_contract_code_id: None,
        whitelist: Some((0..6).map(|i| format!("addr{}", i)).collect()),
        valid_durations: None,
        min_deposit_custom: None,
        min_deposit_default: None,
    };
    let r = vault::update_config(&mut s, &"admin".to_string(), too_many);
    assert!(matches!(r, Err(ContractError::ValidationError { .. })));
    assert_eq!(s.config.validator_address, "valoper1");

    let stranger = ConfigParams {
        validator_address: Some("valoper2".to_string()),
        lock_wallet_contract_code_id: Some(7),
        whitelist: None,
        valid_durations: None,
        min_deposit_custom: None,
        min_deposit_default: None,
    };
    let r = vault::update_config(&mut s, &"eve".to_string(), stranger);
    assert!(matches!(r, Err(ContractError::Unauthorized)));
    assert_eq!(s.config.lock_wallet_contract_code_id, 42);

    let ok = ConfigParams {
        validator_address: Some("valoper2".to_string()),
        lock_wallet_contract_code_id: Some(7),
        whitelist: Some((0..5).map(|i| format!("addr{}", i)).collect()),
        valid_durations: Some(vec![1]),
        min_deposit_custom: None,
        min_deposit_default: Some(3),
    };
    vault::update_config(&mut s, &"admin".to_string(), ok).unwrap();
    assert_eq!(s.config.validator_address, "valoper2");
    assert_eq!(s.config.lock_wallet_contract_code_id, 7);
    assert_eq!(s.config.whitelist.len(), 5);
    assert_eq!(s.config.valid_durations, vec![1]);
    assert_eq!(s.config.min_deposit_default, 3);
    assert_eq!(s.config.owner, "admin");
}

#[test]
fn retrieve_tokens_sends_all_to_owner() {
    let s = new_vault();
    let resp = vault::retrieve_tokens(&s, &"admin".to_string(), uosmo(77)).unwrap();
    assert!(matches!(&resp.calls[0].call, Call::Transfer { receiver, coins } if receiver == "admin" && coins[0].amount == 77));
    let r = vault::retrieve_tokens(&s, &"eve".to_string(), uosmo(77));
    assert!(matches!(r, Err(ContractError::Unauthorized)));
}

#[test]
fn vault_reply_errors_keep_pending_deposit() {
    let mut s = new_vault();
    vault::deposit(&mut s, &vault_addr(), &"alice".to_string(), uosmo(100), 1, 86400, "1".to_string(), false)
        .unwrap();
    let failed = vault::reply(&mut s, 1, Err("out of gas".to_string()));
    assert!(matches!(failed, Err(ContractError::CustomError { val }) if val == "out of gas"));
    let empty = vault::reply(&mut s, 1, Ok(None));
    assert!(matches!(empty, Err(ContractError::CustomError { val }) if val == "Missing reply data"));
    let unknown = vault::reply(&mut s, 2, Ok(Some(instantiate_reply("w"))));
    assert!(matches!(unknown, Err(ContractError::CustomError { val }) if val == "Unknown reply id: 2"));
    assert!(s.pending_deposit.is_some());
    assert_eq!(s.directory.entries.len(), 0);
}

#[test]
fn instantiate_reply_without_pending_deposit_fails() {
    let mut s = new_vault();
    let r = vault::reply(&mut s, 1, Ok(Some(instantiate_reply("w"))));
    assert!(matches!(r, Err(ContractError::CustomError { .. })));
    assert_eq!(s.directory.entries.len(), 0);
}

fn entry(account: &str, pool_id: u64, wallet: &str) -> lockvault::directory::WalletEntry {
    lockvault::directory::WalletEntry {
        account: account.to_string(),
        pool_id,
        duration: 86400,
        wallet: wallet.to_string(),
    }
}

#[test]
fn wallet_listing_pages_in_order() {
    let entries = vec![entry("alice", 1, "w1"), entry("alice", 2, "w2"), entry("bob", 1, "w3")];
    let page = vault::get_wallets(&entries, 2);
    assert_eq!(page.len(), 2);
    assert_eq!((page[0].account.as_str(), page[0].contract_address.as_str(), page[0].pool_id), ("alice", "w1", 1));
    assert_eq!((page[1].account.as_str(), page[1].contract_address.as_str(), page[1].pool_id), ("alice", "w2", 2));
    assert_eq!(vault::get_wallets(&entries, 10).len(), 3);
    assert_eq!(vault::get_wallets(&entries, 0).len(), 0);
}

#[test]
fn account_listing_uses_given_address() {
    let entries = vec![entry("alice", 1, "w1"), entry("alice", 5, "w5")];
    let listed = vault::get_lock_wallet_by_account(&"alice".to_string(), &entries);
    assert_eq!(listed.len(), 2);
    assert_eq!((listed[1].account.as_str(), listed[1].contract_address.as_str(), listed[1].pool_id, listed[1].duration), ("alice", "w5", 5, 86400));
}

#[test]
fn vault_execute_guards_reserved_operations() {
    let mut s = new_vault();
    let update = vault::ExecuteMsg::UpdateConfig {
        config: ConfigParams {
            validator_address: Some("valoper9".to_string()),
            lock_wallet_contract_code_id: None,
            whitelist: None,
            valid_durations: None,
            min_deposit_custom: None,
            min_deposit_default: None,
        },
    };
    let eve = "eve".to_string();
    assert!(matches!(vault::execute(&mut s, &vault_addr(), &eve, vec![], update, vec![]), Err(ContractError::Unauthorized)));
    assert!(matches!(vault::execute(&mut s, &vault_addr(), &eve, vec![], vault::ExecuteMsg::RetrieveTokens, uosmo(3)), Err(ContractError::Unauthorized)));
    let restake = vault::ExecuteMsg::Restake { params: vec![restake_to("w1")] };
    assert!(matches!(vault::execute(&mut s, &vault_addr(), &eve, vec![], restake, vec![]), Err(ContractError::Unauthorized)));
    assert_eq!(s.config.validator_address, "valoper1");
    let deposit = vault::ExecuteMsg::Deposit { pool_id: 1, duration: 86400, share_out_min_amount: "1".to_string(), is_superfluid_staking: false };
    let resp = vault::execute(&mut s, &vault_addr(), &eve, uosmo(100), deposit, vec![]).unwrap();
    assert_eq!(resp.calls[0].reply, Some(VaultReply::InstantiateLockWallet));
}
