use lockvault::calls::{Call, Response};
use lockvault::common::{AddLiquidityParams, Coin, RemoveLiquidityParams, RestakeParams, SwapParams};
use lockvault::error::ContractError;
use lockvault::wallet::{
    self, InstantiateMsg, PendingRestake, WalletReply, WalletStore,
};

fn owned_wallet() -> WalletStore {
    wallet::instantiate("owner".to_string(), InstantiateMsg {})
}

fn contract() -> String {
    "wallet1".to_string()
}

fn coin(denom: &str, amount: u128) -> Coin {
    Coin { denom: denom.to_string(), amount }
}

/// A protobuf message whose field 1 is the string `s`.
fn string_field(s: &str) -> Vec<u8> {
    let mut v = vec![0x0a, s.len() as u8];
    v.extend_from_slice(s.as_bytes());
    v
}

fn restake_item(pool_id: u64, amount: &str) -> RestakeParams {
    RestakeParams {
        amount: amount.to_string(),
        denom: "uosmo".to_string(),
        pool_id,
        duration: 86400,
        share_out_min_amount: "1".to_string(),
    }
}

fn lock_of(resp: &Response<WalletReply>, i: usize) -> (String, u64, String, String) {
    match &resp.calls[i].call {
        Call::LockTokens { owner, duration, amount, denom } => {
            (owner.clone(), *duration, amount.clone(), denom.clone())
        }
        _ => panic!("not a lock"),
    }
}

fn join_of(resp: &Response<WalletReply>, i: usize) -> (String, u64, String, String, String) {
    match &resp.calls[i].call {
        Call::JoinPool { sender, pool_id, amount, denom, share_out_min_amount } => (
            sender.clone(),
            *pool_id,
            amount.clone(),
            denom.clone(),
            share_out_min_amount.clone(),
        ),
        _ => panic!("not a join"),
    }
}

#[test]
fn deposit_joins_pool_and_keeps_params() {
    let mut s = owned_wallet();
    let resp = wallet::deposit(
        &mut s,
        &contract(),
        &"owner".to_string(),
        &vec![coin("uosmo", 100)],
        1,
        86400,
        None,
        "5".to_string(),
    )
    .unwrap();
    assert_eq!(resp.calls.len(), 1);
    assert_eq!(resp.calls[0].reply, Some(WalletReply::AddLiquidity));
    assert_eq!(
        join_of(&resp, 0),
        ("wallet1".to_string(), 1, "100".to_string(), "uosmo".to_string(), "5".to_string())
    );
    let d = s.deposit.as_ref().unwrap();
    assert_eq!((d.pool_id, d.duration, d.validator_address.is_none()), (1, 86400, true));
}

#[test]
fn deposit_reply_locks_shares_and_clears_slot() {
    let mut s = owned_wallet();
    wallet::deposit(&mut s, &contract(), &"owner".to_string(), &vec![coin("uosmo", 100)], 7, 3600, None, "1".to_string())
        .unwrap();
    let resp = wallet::reply(&mut s, &contract(), 1, Ok(Some(string_field("250"))), vec![]).unwrap();
    assert!(s.deposit.is_none());
    assert_eq!(resp.calls.len(), 1);
    assert_eq!(resp.calls[0].reply, None);
    assert_eq!(
        lock_of(&resp, 0),
        ("wallet1".to_string(), 3600, "250".to_string(), "gamm/pool/7".to_string())
    );
}

#[test]
fn delegated_deposit_reply_locks_and_delegates() {
    let mut s = owned_wallet();
    wallet::deposit(
        &mut s,
        &contract(),
        &"owner".to_string(),
        &vec![coin("uosmo", 100)],
        1,
        1209600,
        Some("valoper1".to_string()),
        "1".to_string(),
    )
    .unwrap();
    let resp = wallet::reply(&mut s, &contract(), 1, Ok(Some(string_field("42"))), vec![]).unwrap();
    match &resp.calls[0].call {
        Call::LockAndDelegate { sender, amount, denom, validator } => {
            assert_eq!(sender, "wallet1");
            assert_eq!(amount, "42");
            assert_eq!(denom, "gamm/pool/1");
            assert_eq!(validator, "valoper1");
        }
        _ => panic!("expected a delegated lock"),
    }
    assert_eq!(resp.calls[0].reply, None);
}

#[test]
fn deposit_rejects_non_owner_before_anything() {
    let mut s = owned_wallet();
    let r = wallet::deposit(&mut s, &contract(), &"mallory".to_string(), &vec![coin("uosmo", 100)], 1, 1, None, "1".to_string());
    assert!(matches!(r, Err(ContractError::Unauthorized)));
    assert!(s.deposit.is_none() && s.receiver.is_none() && s.restake.is_none());
}

#[test]
fn deposit_rejects_bad_funds() {
    let mut s = owned_wallet();
    let none = wallet::deposit(&mut s, &contract(), &"owner".to_string(), &vec![], 1, 1, None, "1".to_string());
    assert!(matches!(none, Err(ContractError::InvalidFunds)));
    let zero = wallet::deposit(&mut s, &contract(), &"owner".to_string(), &vec![coin("uosmo", 0)], 1, 1, None, "1".to_string());
    assert!(matches!(zero, Err(ContractError::InvalidFunds)));
    let two = wallet::deposit(
        &mut s,
        &contract(),
        &"owner".to_string(),
        &vec![coin("uosmo", 1), coin("uatom", 1)],
        1,
        1,
        None,
        "1".to_string(),
    );
    assert!(matches!(two, Err(ContractError::InvalidFunds)));
    assert!(s.deposit.is_none());
}

#[test]
fn failed_join_reply_leaves_slot_and_reports_host_text() {
    let mut s = owned_wallet();
    wallet::deposit(&mut s, &contract(), &"owner".to_string(), &vec![coin("uosmo", 100)], 1, 1, None, "1".to_string())
        .unwrap();
    let r = wallet::reply(&mut s, &contract(), 1, Err("pool is gone".to_string()), vec![]);
    match r {
        Err(ContractError::AddLiquidityError { val }) => assert_eq!(val, "pool is gone"),
        _ => panic!("expected an add-liquidity error"),
    }
    assert!(s.deposit.is_some());
    let empty = wallet::reply(&mut s, &contract(), 1, Ok(None), vec![]);
    assert!(matches!(empty, Err(ContractError::AddLiquidityError { .. })));
    let garbage = wallet::reply(&mut s, &contract(), 1, Ok(Some(vec![0xff, 0xff, 0xff])), vec![]);
    assert!(matches!(garbage, Err(ContractError::AddLiquidityError { .. })));
    assert!(s.deposit.is_some());
}

#[test]
fn join_reply_without_pending_deposit_fails() {
    let mut s = owned_wallet();
    let r = wallet::reply(&mut s, &contract(), 1, Ok(Some(string_field("1"))), vec![]);
    assert!(matches!(r, Err(ContractError::AddLiquidityError { .. })));
}

#[test]
fn unknown_reply_tag_is_refused() {
    let mut s = owned_wallet();
    let r = wallet::reply(&mut s, &contract(), 9, Ok(Some(string_field("1"))), vec![]);
    match r {
        Err(ContractError::CustomError { val }) => assert_eq!(val, "Unknown reply id 9"),
        _ => panic!("expected a custom error"),
    }
}

#[test]
fn restake_queue_scenario_pops_one_per_callback() {
    let mut s = owned_wallet();
    let resp = wallet::restake_queue(
        &mut s,
        &contract(),
        &"owner".to_string(),
        vec![restake_item(1, "10"), restake_item(2, "20")],
    )
    .unwrap();
    assert_eq!(resp.calls.len(), 1);
    assert_eq!(resp.calls[0].reply, Some(WalletReply::RestakeAddLiquidity));
    assert_eq!(join_of(&resp, 0).1, 1);
    assert_eq!(join_of(&resp, 0).2, "10");

    let first = wallet::reply(&mut s, &contract(), 4, Ok(Some(string_field("111"))), vec![]).unwrap();
    match &s.restake {
        Some(PendingRestake::Queue(q)) => {
            assert_eq!(q.len(), 1);
            assert_eq!(q[0].pool_id, 2);
        }
        _ => panic!("queue should hold the second element"),
    }
    assert_eq!(first.calls.len(), 2);
    assert_eq!(first.calls[0].reply, None);
    assert_eq!(lock_of(&first, 0), ("wallet1".to_string(), 86400, "111".to_string(), "gamm/pool/1".to_string()));
    assert_eq!(first.calls[1].reply, Some(WalletReply::RestakeAddLiquidity));
    assert_eq!(join_of(&first, 1).1, 2);
    assert_eq!(join_of(&first, 1).2, "20");

    let second = wallet::reply(&mut s, &contract(), 4, Ok(Some(string_field("222"))), vec![]).unwrap();
    assert!(s.restake.is_none());
    assert_eq!(second.calls.len(), 1);
    assert_eq!(lock_of(&second, 0), ("wallet1".to_string(), 86400, "222".to_string(), "gamm/pool/2".to_string()));
}

#[test]
fn restake_queue_of_three_drains_in_three_callbacks() {
    let mut s = owned_wallet();
    wallet::restake_queue(
        &mut s,
        &contract(),
        &"owner".to_string(),
        vec![restake_item(1, "1"), restake_item(2, "2"), restake_item(3, "3")],
    )
    .unwrap();
    for k in 0..3 {
        assert!(s.restake.is_some(), "slot emptied early at callback {}", k);
        wallet::reply(&mut s, &contract(), 4, Ok(Some(string_field("9"))), vec![]).unwrap();
    }
    assert!(s.restake.is_none());
    let extra = wallet::reply(&mut s, &contract(), 4, Ok(Some(string_field("9"))), vec![]);
    assert!(matches!(extra, Err(ContractError::AddLiquidityError { .. })));
}

#[test]
fn empty_restake_queue_issues_nothing() {
    let mut s = owned_wallet();
    let resp = wallet::restake_queue(&mut s, &contract(), &"owner".to_string(), vec![]).unwrap();
    assert!(resp.calls.is_empty());
    assert!(s.restake.is_none());
}

#[test]
fn restake_with_swap_feeds_swap_output_into_join() {
    let mut s = owned_wallet();
    let al = AddLiquidityParams {
        amount: "1000".to_string(),
        denom: "uatom".to_string(),
        pool_id: 5,
        share_out_min_amount: "3".to_string(),
    };
    let sw = SwapParams { pool_id: 9, denom_out: "uosmo".to_string(), amount_out_min: "2".to_string() };
    let resp = wallet::restake(&mut s, &contract(), &"owner".to_string(), al, 600, Some(sw)).unwrap();
    assert_eq!(resp.calls[0].reply, Some(WalletReply::RestakeSwap));
    match &resp.calls[0].call {
        Call::Swap { sender, pool_id, amount_in, denom_in, amount_out_min, denom_out } => {
            assert_eq!((sender.as_str(), *pool_id, amount_in.as_str()), ("wallet1", 9, "1000"));
            assert_eq!((denom_in.as_str(), amount_out_min.as_str(), denom_out.as_str()), ("uatom", "2", "uosmo"));
        }
        _ => panic!("expected a swap"),
    }
    let joined = wallet::reply(&mut s, &contract(), 3, Ok(Some(string_field("777"))), vec![]).unwrap();
    assert_eq!(joined.calls[0].reply, Some(WalletReply::RestakeAddLiquidity));
    assert_eq!(
        join_of(&joined, 0),
        ("wallet1".to_string(), 5, "777".to_string(), "uosmo".to_string(), "3".to_string())
    );
    assert!(s.restake.is_some());
    let locked = wallet::reply(&mut s, &contract(), 4, Ok(Some(string_field("50"))), vec![]).unwrap();
    assert_eq!(lock_of(&locked, 0), ("wallet1".to_string(), 600, "50".to_string(), "gamm/pool/5".to_string()));
    assert!(s.restake.is_none());
}

#[test]
fn swap_reply_failures_are_swap_errors() {
    let mut s = owned_wallet();
    let r = wallet::reply(&mut s, &contract(), 3, Err("no route".to_string()), vec![]);
    match r {
        Err(ContractError::SwapError { val }) => assert_eq!(val, "no route"),
        _ => panic!("expected a swap error"),
    }
    let missing = wallet::reply(&mut s, &contract(), 3, Ok(Some(string_field("1"))), vec![]);
    assert!(matches!(missing, Err(ContractError::SwapError { .. })));
}

#[test]
fn restake_requires_owner() {
    let mut s = owned_wallet();
    let al = AddLiquidityParams {
        amount: "1".to_string(),
        denom: "uosmo".to_string(),
        pool_id: 1,
        share_out_min_amount: "1".to_string(),
    };
    let r = wallet::restake(&mut s, &contract(), &"mallory".to_string(), al, 1, None);
    assert!(matches!(r, Err(ContractError::Unauthorized)));
    assert!(s.restake.is_none());
}

fn position(pool_id: u64) -> RemoveLiquidityParams {
    RemoveLiquidityParams {
        pool_id,
        shares: format!("{}00", pool_id),
        denom_out: "uosmo".to_string(),
        min_tokens: "1".to_string(),
    }
}

#[test]
fn withdraw_all_fans_out_with_one_tracked_tail() {
    let mut s = owned_wallet();
    let resp = wallet::withdraw_all(
        &mut s,
        &contract(),
        &"owner".to_string(),
        "alice".to_string(),
        Some(vec![position(1), position(2), position(3)]),
        vec![],
    )
    .unwrap();
    assert_eq!(resp.calls.len(), 3);
    let with_reply: Vec<_> = resp.calls.iter().filter(|c| c.reply.is_some()).collect();
    assert_eq!(with_reply.len(), 1);
    assert_eq!(resp.calls[2].reply, Some(WalletReply::FinishRemovingLiquidity));
    for (i, c) in resp.calls.iter().enumerate() {
        match &c.call {
            Call::ExitPool { sender, pool_id, shares, denom_out, min_tokens } => {
                assert_eq!(sender, "wallet1");
                assert_eq!(*pool_id, i as u64 + 1);
                assert_eq!(shares, &format!("{}00", i + 1));
                assert_eq!(denom_out, "uosmo");
                assert_eq!(min_tokens, "1");
            }
            _ => panic!("expected exits"),
        }
    }
    assert_eq!(s.receiver.as_deref(), Some("alice"));
    let sweep = wallet::reply(
        &mut s,
        &contract(),
        2,
        Ok(Some(string_field("300"))),
        vec![coin("uosmo", 900), coin("uatom", 5)],
    )
    .unwrap();
    assert!(s.receiver.is_none());
    assert_eq!(sweep.calls.len(), 1);
    assert_eq!(sweep.calls[0].reply, None);
    match &sweep.calls[0].call {
        Call::Transfer { receiver, coins } => {
            assert_eq!(receiver, "alice");
            assert_eq!(coins.len(), 2);
            assert_eq!((coins[0].denom.as_str(), coins[0].amount), ("uosmo", 900));
            assert_eq!((coins[1].denom.as_str(), coins[1].amount), ("uatom", 5));
        }
        _ => panic!("expected the sweep"),
    }
}

#[test]
fn withdraw_all_of_one_position_tracks_it() {
    let mut s = owned_wallet();
    let resp = wallet::withdraw_all(&mut s, &contract(), &"owner".to_string(), "alice".to_string(), Some(vec![position(4)]), vec![])
        .unwrap();
    assert_eq!(resp.calls.len(), 1);
    assert_eq!(resp.calls[0].reply, Some(WalletReply::FinishRemovingLiquidity));
}

#[test]
fn withdraw_all_without_positions_sweeps_at_once() {
    let mut s = owned_wallet();
    for positions in [None, Some(vec![])] {
        let resp = wallet::withdraw_all(
            &mut s,
            &contract(),
            &"owner".to_string(),
            "alice".to_string(),
            positions,
            vec![coin("uosmo", 12)],
        )
        .unwrap();
        assert_eq!(resp.calls.len(), 1);
        assert_eq!(resp.calls[0].reply, None);
        match &resp.calls[0].call {
            Call::Transfer { receiver, coins } => {
                assert_eq!(receiver, "alice");
                assert_eq!((coins[0].denom.as_str(), coins[0].amount), ("uosmo", 12));
            }
            _ => panic!("expected the sweep"),
        }
        assert!(s.receiver.is_none());
    }
}

#[test]
fn exit_reply_failures_are_remove_liquidity_errors() {
    let mut s = owned_wallet();
    let r = wallet::reply(&mut s, &contract(), 2, Err("exit failed".to_string()), vec![]);
    assert!(matches!(r, Err(ContractError::RemoveLiquidityError { .. })));
    let missing = wallet::reply(&mut s, &contract(), 2, Ok(Some(string_field("1"))), vec![]);
    assert!(matches!(missing, Err(ContractError::RemoveLiquidityError { .. })));
    let empty = wallet::reply(&mut s, &contract(), 2, Ok(None), vec![]);
    assert!(matches!(empty, Err(ContractError::RemoveLiquidityError { .. })));
}

#[test]
fn unbond_plain_and_delegated() {
    let s = owned_wallet();
    let plain = wallet::unbond(&s, &contract(), &"owner".to_string(), 17, false).unwrap();
    assert_eq!(plain.calls.len(), 1);
    assert!(matches!(&plain.calls[0].call, Call::BeginUnlocking { owner, lock_id: 17 } if owner == "wallet1"));
    let delegated = wallet::unbond(&s, &contract(), &"owner".to_string(), 17, true).unwrap();
    assert_eq!(delegated.calls.len(), 2);
    assert!(matches!(&delegated.calls[0].call, Call::Undelegate { lock_id: 17, .. }));
    assert!(matches!(&delegated.calls[1].call, Call::UnbondLock { lock_id: 17, .. }));
    assert!(delegated.calls.iter().all(|c| c.reply.is_none()));
    let other = wallet::unbond(&s, &contract(), &"mallory".to_string(), 17, false);
    assert!(matches!(other, Err(ContractError::Unauthorized)));
}

#[test]
fn withdraw_sends_parsed_amount() {
    let s = owned_wallet();
    let resp = wallet::withdraw(&s, &"owner".to_string(), "bob".to_string(), "1500".to_string(), "uosmo".to_string()).unwrap();
    match &resp.calls[0].call {
        Call::Transfer { receiver, coins } => {
            assert_eq!(receiver, "bob");
            assert_eq!(coins.len(), 1);
            assert_eq!((coins[0].denom.as_str(), coins[0].amount), ("uosmo", 1500));
        }
        _ => panic!("expected a transfer"),
    }
    let bad = wallet::withdraw(&s, &"owner".to_string(), "bob".to_string(), "12a".to_string(), "uosmo".to_string());
    assert!(matches!(bad, Err(ContractError::ValidationError { .. })));
    let other = wallet::withdraw(&s, &"eve".to_string(), "bob".to_string(), "1".to_string(), "uosmo".to_string());
    assert!(matches!(other, Err(ContractError::Unauthorized)));
}

#[test]
fn reply_tags_round_trip() {
    for t in [
        WalletReply::AddLiquidity,
        WalletReply::FinishRemovingLiquidity,
        WalletReply::RestakeSwap,
        WalletReply::RestakeAddLiquidity,
    ] {
        assert_eq!(WalletReply::from_id(t.id()), Some(t));
    }
    assert_eq!(WalletReply::from_id(0), None);
    assert_eq!(WalletReply::from_id(5), None);
}

#[test]
fn owner_query_returns_instantiator() {
    let s = owned_wallet();
    assert_eq!(wallet::get_owner(&s), "owner");
}

#[test]
fn every_wallet_operation_rejects_a_stranger() {
    let msgs = vec![
        wallet::ExecuteMsg::Deposit { pool_id: 1, duration: 1, validator_address: None, share_out_min_amount: "1".to_string() },
        wallet::ExecuteMsg::RestakeQueue { params: vec![restake_item(1, "1")] },
        wallet::ExecuteMsg::Unbond { lock_id: 1, is_superfluid_staking: false },
        wallet::ExecuteMsg::Withdraw { receiver: "x".to_string(), amount: "1".to_string(), denom: "uosmo".to_string() },
        wallet::ExecuteMsg::WithdrawAll { receiver: "x".to_string(), lp_tokens_out: Some(vec![position(1)]) },
    ];
    for msg in msgs {
        let mut s = owned_wallet();
        let r = wallet::execute(&mut s, &contract(), &"mallory".to_string(), &vec![coin("uosmo", 5)], msg, vec![]);
        assert!(matches!(r, Err(ContractError::Unauthorized)));
        assert!(s.deposit.is_none() && s.receiver.is_none() && s.restake.is_none());
    }
}

#[test]
fn wallet_execute_dispatches_owner_deposit() {
    let mut s = owned_wallet();
    let msg = wallet::ExecuteMsg::Deposit { pool_id: 3, duration: 60, validator_address: None, share_out_min_amount: "1".to_string() };
    let resp = wallet::execute(&mut s, &contract(), &"owner".to_string(), &vec![coin("uosmo", 5)], msg, vec![]).unwrap();
    assert_eq!(resp.calls[0].reply, Some(WalletReply::AddLiquidity));
    assert_eq!(join_of(&resp, 0).2, "5");
}

#[test]
fn replies_without_payload_say_empty_response() {
    let mut s = owned_wallet();
    for id in [1u64, 2, 3, 4] {
        let r = wallet::reply(&mut s, &contract(), id, Ok(None), vec![]);
        let val = match r {
            Err(ContractError::AddLiquidityError { val })
            | Err(ContractError::SwapError { val })
            | Err(ContractError::RemoveLiquidityError { val }) => val,
            _ => panic!("expected a step error"),
        };
        assert_eq!(val, "Empty response");
    }
}
