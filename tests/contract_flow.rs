use osmosis_liquidity_pool::contract::{
    confirm_creation, create_pool, execute, instantiate, query, query_channel_info, query_counter,
    reply, withdraw_locked_lp_shares, ExecuteOutcome, QueryAnswer, ReplyOutcome, SubCallResult,
    CREATE_POOL_REPLY_ID, LOCKED_SHARE_AMOUNT, POOL_ASSET_WEIGHT, POOL_EXIT_FEE, POOL_SWAP_FEE,
};
use osmosis_liquidity_pool::error::ContractError;
use osmosis_liquidity_pool::msg::{ExecuteMsg, InstantiateMsg, QueryMsg, Token};
use osmosis_liquidity_pool::state::{ChannelInfo, ContractState, LockedShares, LOCK_DURATION};

fn token(denom: &str, amount: u128) -> Token {
    Token { denom: denom.to_string(), amount }
}

fn s(text: &str) -> String {
    text.to_string()
}

fn fresh() -> ContractState {
    instantiate(InstantiateMsg {})
}

/// Protobuf bytes of a creation response: field 1, varint.
fn response_bytes(pool_id: u64) -> Vec<u8> {
    let mut out = vec![0x08u8];
    let mut v = pool_id;
    loop {
        let byte = (v & 0x7f) as u8;
        v >>= 7;
        if v == 0 {
            out.push(byte);
            break;
        }
        out.push(byte | 0x80);
    }
    out
}

#[test]
fn instantiate_sets_lock_period_and_zero_counter() {
    let st = fresh();
    assert_eq!(st.lock_duration, 600);
    assert_eq!(LOCK_DURATION, 600);
    assert_eq!(query_counter(&st), 0);
    assert!(st.pending_sender.is_none());
    assert!(st.channel_info.is_none());
    assert_eq!(st.locked_shares_of(&s("alice")), None);
}

#[test]
fn equal_amounts_dispatch_and_record_requester() {
    let mut st = fresh();
    let d = create_pool(
        &mut st,
        &s("contract"),
        &s("alice"),
        token("uosmo", 100),
        token("uatom", 100),
        s("bob"),
        true,
    )
    .unwrap();
    assert_eq!(st.pending_sender, Some(s("alice")));
    assert_eq!(d.reply_id, CREATE_POOL_REPLY_ID);
    assert_eq!(d.lp_owner, "bob");
    assert_eq!(d.call.sender, "contract");
    assert_eq!(d.call.future_pool_governor, "bob");
    assert_eq!(d.call.asset_a, token("uosmo", 100));
    assert_eq!(d.call.asset_b, token("uatom", 100));
    assert_eq!(d.call.weight, POOL_ASSET_WEIGHT);
    assert_eq!(POOL_ASSET_WEIGHT, 500000);
    assert_eq!(d.call.swap_fee, POOL_SWAP_FEE);
    assert_eq!(POOL_SWAP_FEE, 3000000000000000);
    assert_eq!(d.call.exit_fee, POOL_EXIT_FEE);
    assert_eq!(POOL_EXIT_FEE, 0);
}

#[test]
fn unequal_amounts_fail_without_change() {
    let mut st = fresh();
    let r = create_pool(
        &mut st,
        &s("contract"),
        &s("alice"),
        token("uosmo", 100),
        token("uatom", 99),
        s("bob"),
        true,
    );
    assert_eq!(r, Err(ContractError::RatioMismatch));
    assert!(st.pending_sender.is_none());
    assert_eq!(st.counter, 0);
}

#[test]
fn invalid_owner_fails_without_change() {
    let mut st = fresh();
    let r = create_pool(
        &mut st,
        &s("contract"),
        &s("alice"),
        token("uosmo", 5),
        token("uatom", 5),
        s("not an address"),
        false,
    );
    assert_eq!(r, Err(ContractError::InvalidAddress));
    assert!(st.pending_sender.is_none());
}

#[test]
fn confirmation_locks_for_six_hundred_seconds() {
    let mut st = fresh();
    create_pool(&mut st, &s("c"), &s("alice"), token("a", 1), token("b", 1), s("alice"), true)
        .unwrap();
    let c = confirm_creation(&mut st, 7, 1000).unwrap();
    assert_eq!(c.owner, "alice");
    assert_eq!(c.pool_id, 7);
    assert_eq!(c.unlock_time, 1600);
    assert!(st.pending_sender.is_none());
    assert_eq!(
        st.locked_shares_of(&s("alice")),
        Some(LockedShares { pool_id: 7, amount: LOCKED_SHARE_AMOUNT, unlock_time: 1600 })
    );
    assert_eq!(LOCKED_SHARE_AMOUNT, 1000000);
}

#[test]
fn confirmation_without_pending_request_fails() {
    let mut st = fresh();
    assert_eq!(confirm_creation(&mut st, 7, 1000), Err(ContractError::NoPendingCreation));
}

#[test]
fn confirmation_past_the_largest_time_fails() {
    let mut st = fresh();
    create_pool(&mut st, &s("c"), &s("alice"), token("a", 1), token("b", 1), s("alice"), true)
        .unwrap();
    let r = confirm_creation(&mut st, 7, u64::MAX - 599);
    assert_eq!(r, Err(ContractError::UnlockTimeOverflow));
    assert_eq!(st.pending_sender, Some(s("alice")));
    let c = confirm_creation(&mut st, 7, u64::MAX - 600).unwrap();
    assert_eq!(c.unlock_time, u64::MAX);
}

#[test]
fn reply_decodes_pool_id() {
    let mut st = fresh();
    create_pool(&mut st, &s("c"), &s("alice"), token("a", 1), token("b", 1), s("alice"), true)
        .unwrap();
    let result = SubCallResult::Success { data: Some(response_bytes(300)) };
    let out = reply(&mut st, CREATE_POOL_REPLY_ID, &result, 50).unwrap();
    match out {
        ReplyOutcome::Confirmed(c) => {
            assert_eq!(c.pool_id, 300);
            assert_eq!(c.unlock_time, 650);
            assert_eq!(c.owner, "alice");
        }
        ReplyOutcome::Ignored => panic!("confirmation was ignored"),
    }
    assert_eq!(st.locked_shares_of(&s("alice")).unwrap().pool_id, 300);
}

#[test]
fn reply_with_other_tag_is_ignored() {
    let mut st = fresh();
    create_pool(&mut st, &s("c"), &s("alice"), token("a", 1), token("b", 1), s("alice"), true)
        .unwrap();
    let result = SubCallResult::Success { data: Some(response_bytes(3)) };
    assert_eq!(reply(&mut st, 2, &result, 50), Ok(ReplyOutcome::Ignored));
    assert_eq!(st.pending_sender, Some(s("alice")));
}

#[test]
fn reply_without_data_fails_and_leaves_slot() {
    let mut st = fresh();
    create_pool(&mut st, &s("c"), &s("alice"), token("a", 1), token("b", 1), s("alice"), true)
        .unwrap();
    let none = SubCallResult::Success { data: None };
    assert_eq!(reply(&mut st, 1, &none, 50), Err(ContractError::ConfirmationDataMissing));
    let failed = SubCallResult::Failure { message: s("out of gas") };
    assert_eq!(reply(&mut st, 1, &failed, 50), Err(ContractError::ConfirmationDataMissing));
    let garbage = SubCallResult::Success { data: Some(vec![0xff, 0xff]) };
    assert_eq!(reply(&mut st, 1, &garbage, 50), Err(ContractError::ConfirmationDataMissing));
    assert_eq!(st.pending_sender, Some(s("alice")));
    assert_eq!(st.locked_shares_of(&s("alice")), None);
}

#[test]
fn withdraw_before_unlock_reports_remaining_time() {
    let mut st = fresh();
    create_pool(&mut st, &s("c"), &s("alice"), token("a", 1), token("b", 1), s("alice"), true)
        .unwrap();
    confirm_creation(&mut st, 9, 1000).unwrap();
    let r = withdraw_locked_lp_shares(&mut st, &s("alice"), 1200);
    assert_eq!(r, Err(ContractError::StillLocked { remaining: 400 }));
    assert!(st.locked_shares_of(&s("alice")).is_some());
}

#[test]
fn withdraw_at_unlock_transfers_and_deletes() {
    let mut st = fresh();
    create_pool(&mut st, &s("c"), &s("alice"), token("a", 1), token("b", 1), s("alice"), true)
        .unwrap();
    confirm_creation(&mut st, 42, 1000).unwrap();
    let t = withdraw_locked_lp_shares(&mut st, &s("alice"), 1600).unwrap();
    assert_eq!(t.to_address, "alice");
    assert_eq!(t.denom, "lp-share-token/pool/42");
    assert_eq!(t.amount, 1000000);
    assert_eq!(st.locked_shares_of(&s("alice")), None);
    let again = withdraw_locked_lp_shares(&mut st, &s("alice"), 1700);
    assert_eq!(again, Err(ContractError::NoLockedShares));
}

#[test]
fn withdraw_denom_of_large_pool_id() {
    let mut st = fresh();
    st.set_locked(&s("carol"), LockedShares { pool_id: 1234567890, amount: 5, unlock_time: 0 });
    let t = withdraw_locked_lp_shares(&mut st, &s("carol"), 0).unwrap();
    assert_eq!(t.denom, "lp-share-token/pool/1234567890");
    assert_eq!(t.amount, 5);
}

#[test]
fn withdraw_without_shares_fails() {
    let mut st = fresh();
    assert_eq!(
        withdraw_locked_lp_shares(&mut st, &s("nobody"), 10),
        Err(ContractError::NoLockedShares)
    );
}

#[test]
fn second_dispatch_takes_first_confirmation() {
    let mut st = fresh();
    create_pool(&mut st, &s("c"), &s("alice"), token("a", 1), token("b", 1), s("alice"), true)
        .unwrap();
    create_pool(&mut st, &s("c"), &s("bob"), token("a", 2), token("b", 2), s("bob"), true)
        .unwrap();
    let c = confirm_creation(&mut st, 11, 0).unwrap();
    assert_eq!(c.owner, "bob");
    assert!(st.locked_shares_of(&s("bob")).is_some());
    assert_eq!(st.locked_shares_of(&s("alice")), None);
}

#[test]
fn later_confirmation_replaces_owner_record() {
    let mut st = fresh();
    for (pool, now) in [(1u64, 10u64), (2, 20)] {
        create_pool(&mut st, &s("c"), &s("dan"), token("a", 1), token("b", 1), s("dan"), true)
            .unwrap();
        confirm_creation(&mut st, pool, now).unwrap();
    }
    assert_eq!(
        st.locked_shares_of(&s("dan")),
        Some(LockedShares { pool_id: 2, amount: 1000000, unlock_time: 620 })
    );
    assert_eq!(st.locked.len(), 1);
}

#[test]
fn execute_routes_commands() {
    let mut st = fresh();
    let msg = ExecuteMsg::CreatePool {
        token_a: token("a", 3),
        token_b: token("b", 3),
        lp_owner: s("erin"),
    };
    let out = execute(&mut st, &s("c"), &s("erin"), msg, true, 0).unwrap();
    assert!(matches!(out, ExecuteOutcome::PoolRequested(_)));
    confirm_creation(&mut st, 5, 0).unwrap();
    let w = execute(&mut st, &s("c"), &s("erin"), ExecuteMsg::WithdrawLockedLpShares {}, true, 10);
    assert_eq!(w, Err(ContractError::StillLocked { remaining: 590 }));
    let w = execute(&mut st, &s("c"), &s("erin"), ExecuteMsg::WithdrawLockedLpShares {}, true, 600);
    match w.unwrap() {
        ExecuteOutcome::Withdrawn(t) => assert_eq!(t.denom, "lp-share-token/pool/5"),
        ExecuteOutcome::PoolRequested(_) => panic!("wrong outcome"),
    }
}

#[test]
fn queries_answer_counter_and_channel() {
    let mut st = fresh();
    assert_eq!(query(&st, QueryMsg::GetCounter {}), Ok(QueryAnswer::Counter(0)));
    assert_eq!(query(&st, QueryMsg::GetChannelInfo {}), Err(ContractError::NoChannel));
    let ch = ChannelInfo { channel_id: s("channel-0"), port_id: s("wasm.c") };
    st.channel_info = Some(ch.clone());
    assert_eq!(query_channel_info(&st), Ok(ch.clone()));
    assert_eq!(query(&st, QueryMsg::GetChannelInfo {}), Ok(QueryAnswer::Channel(ch)));
}
