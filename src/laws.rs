//! Properties that hold across the contract's entry points, proved from
//! their contracts.
use vstd::prelude::*;

use crate::contract::{
    confirm_spec, dispatch_spec, share_denom, withdraw_spec, Confirmation, Dispatch, Transfer,
};
use crate::error::ContractError;
use crate::ibc::{
    bumped, receive_spec, PacketAck, DESTINATION_CALLBACK_STEP, PACKET_RECEIVE_STEP,
};
use crate::msg::{IbcCreatePoolMsg, Token};
use crate::state::{ContractState, LockedShares};

verus! {

/// A request with equal amounts and a valid owner is dispatched, and the
/// pending slot then holds the requesting address.
pub proof fn lemma_dispatch_records_requester(
    pre: ContractState,
    post: ContractState,
    contract_address: String,
    sender: String,
    token_a: Token,
    token_b: Token,
    lp_owner: String,
    r: Result<Dispatch, ContractError>,
)
    requires
        token_a.amount == token_b.amount,
        dispatch_spec(pre, post, contract_address, sender, token_a, token_b, lp_owner, true, r),
    ensures
        r is Ok,
        post.pending_sender == Some(sender),
{
}

/// A request with unequal amounts fails with `RatioMismatch` and changes
/// nothing.
pub proof fn lemma_ratio_mismatch_is_noop(
    pre: ContractState,
    post: ContractState,
    contract_address: String,
    sender: String,
    token_a: Token,
    token_b: Token,
    lp_owner: String,
    owner_valid: bool,
    r: Result<Dispatch, ContractError>,
)
    requires
        token_a.amount != token_b.amount,
        dispatch_spec(pre, post, contract_address, sender, token_a, token_b, lp_owner, owner_valid, r),
    ensures
        r == Err::<Dispatch, ContractError>(ContractError::RatioMismatch),
        post == pre,
{
}

/// With a lock period of 600 seconds, a confirmation at time `now` for the
/// pending requester puts that requester's shares in escrow until `now + 600`.
pub proof fn lemma_unlock_after_lock_period(
    pre: ContractState,
    post: ContractState,
    pool_id: u64,
    now: u64,
    r: Result<Confirmation, ContractError>,
)
    requires
        pre.lock_duration == 600,
        confirm_spec(pre, post, pool_id, now, r),
        r is Ok,
    ensures
        pre.pending_sender is Some,
        post.escrow().dom().contains(pre.pending_sender->Some_0@),
        post.escrow()[pre.pending_sender->Some_0@].unlock_time == now + 600,
{
}

/// Before the unlock time a withdrawal fails with the remaining seconds and
/// leaves the record; from the unlock time on it succeeds, deletes the record,
/// and transfers exactly the recorded amount of the pool's share token.
pub proof fn lemma_withdraw_gate(
    pre: ContractState,
    post: ContractState,
    owner: String,
    now: u64,
    r: Result<Transfer, ContractError>,
)
    requires
        pre.escrow().dom().contains(owner@),
        withdraw_spec(pre, post, owner, now, r),
    ensures
        ({
            let shares = pre.escrow()[owner@];
            &&& now < shares.unlock_time ==> r == Err::<Transfer, ContractError>(
                ContractError::StillLocked { remaining: (shares.unlock_time - now) as u64 },
            ) && post.escrow() == pre.escrow()
            &&& now >= shares.unlock_time ==> {
                &&& r is Ok
                &&& !post.escrow().dom().contains(owner@)
                &&& r->Ok_0.to_address == owner
                &&& r->Ok_0.amount == shares.amount
                &&& r->Ok_0.denom@ == share_denom(shares.pool_id as nat)
            }
        }),
{
}

/// The single pending slot is overwritten: when `a` dispatches, then `b`
/// dispatches, and then a confirmation arrives, the shares are put in escrow
/// under `b`, and `a`'s escrow record stays as it was.
pub proof fn lemma_second_dispatch_takes_confirmation(
    s0: ContractState,
    s1: ContractState,
    s2: ContractState,
    s3: ContractState,
    contract_address: String,
    a: String,
    token_a1: Token,
    token_b1: Token,
    owner1: String,
    b: String,
    token_a2: Token,
    token_b2: Token,
    owner2: String,
    r1: Result<Dispatch, ContractError>,
    r2: Result<Dispatch, ContractError>,
    pool_id: u64,
    now: u64,
    r3: Result<Confirmation, ContractError>,
)
    requires
        dispatch_spec(s0, s1, contract_address, a, token_a1, token_b1, owner1, true, r1),
        r1 is Ok,
        dispatch_spec(s1, s2, contract_address, b, token_a2, token_b2, owner2, true, r2),
        r2 is Ok,
        confirm_spec(s2, s3, pool_id, now, r3),
        r3 is Ok,
    ensures
        r3->Ok_0.owner == b,
        s3.escrow().dom().contains(b@),
        s3.escrow()[b@].pool_id == pool_id as u128,
        a@ != b@ ==> s3.escrow().dom().contains(a@) == s0.escrow().dom().contains(a@),
        a@ != b@ ==> s3.escrow()[a@] == s0.escrow()[a@],
{
}

/// A routed packet, with the contract's balance holding the transferred
/// amounts, is acknowledged as a success exactly when a direct request with
/// those amounts from the contract itself is dispatched; it then issues the
/// same call, leaves the same pending slot, and grows the counter by 5.
pub proof fn lemma_packet_matches_direct_request(
    pre: ContractState,
    post: ContractState,
    self_address: String,
    q: IbcCreatePoolMsg,
    amount_a: u128,
    amount_b: u128,
    owner_valid: bool,
    r: Result<PacketAck, ContractError>,
    direct_post: ContractState,
    direct_r: Result<Dispatch, ContractError>,
)
    requires
        receive_spec(pre, post, self_address, Some(q), amount_a, amount_b, owner_valid, r),
        dispatch_spec(
            pre,
            direct_post,
            self_address,
            self_address,
            Token { denom: q.token_a.denom, amount: amount_a },
            Token { denom: q.token_b.denom, amount: amount_b },
            q.lp_owner,
            owner_valid,
            direct_r,
        ),
        pre.counter + 5 <= u64::MAX,
    ensures
        r is Ok <==> direct_r is Ok,
        r is Ok ==> r == Ok::<PacketAck, ContractError>(PacketAck::PoolRequested(direct_r->Ok_0)),
        r is Ok ==> post.pending_sender == direct_post.pending_sender,
        r is Ok ==> post.escrow() == direct_post.escrow(),
        r is Ok ==> post.counter == pre.counter + 5,
{
}

/// One inbound event: a successful packet reception (`true`) or a
/// destination-side callback (`false`), as the entry points' contracts
/// describe them.
pub open spec fn inbound_event(pre: ContractState, post: ContractState, is_packet: bool) -> bool {
    if is_packet {
        exists|
            self_address: String,
            request: Option<IbcCreatePoolMsg>,
            amount_a: u128,
            amount_b: u128,
            owner_valid: bool,
            r: Result<PacketAck, ContractError>,
        |
            #[trigger] receive_spec(pre, post, self_address, request, amount_a, amount_b, owner_valid, r)
                && r is Ok
    } else {
        post == (ContractState { counter: bumped(pre.counter, DESTINATION_CALLBACK_STEP), ..pre })
    }
}

/// How much a run of inbound events adds to the counter: 5 per packet and
/// 1 per callback.
pub open spec fn event_weight(events: Seq<bool>) -> nat
    decreases events.len(),
{
    if events.len() == 0 {
        0
    } else {
        event_weight(events.drop_last()) + if events.last() {
            5nat
        } else {
            1nat
        }
    }
}

/// Starting from 0, after `n` successful packet receptions and `m`
/// destination-side callbacks, in any order, the counter is `5n + m`.
pub proof fn lemma_counter_counts_events(states: Seq<ContractState>, events: Seq<bool>)
    requires
        states.len() == events.len() + 1,
        states[0].counter == 0,
        forall|i: int| 0 <= i < events.len() ==> inbound_event(states[i], states[i + 1], events[i]),
        event_weight(events) <= u64::MAX,
    ensures
        states.last().counter == event_weight(events),
    decreases events.len(),
{
    if events.len() > 0 {
        let k = events.len() - 1;
        let shorter = events.drop_last();
        lemma_event_weight_grows(events);
        assert forall|i: int| 0 <= i < shorter.len() implies inbound_event(
            states.drop_last()[i],
            states.drop_last()[i + 1],
            shorter[i],
        ) by {
            assert(inbound_event(states[i], states[i + 1], events[i]));
        }
        lemma_counter_counts_events(states.drop_last(), shorter);
        assert(inbound_event(states[k], states[k + 1], events[k]));
        if events[k] {
            let (self_address, request, amount_a, amount_b, owner_valid, r) = choose|
                self_address: String,
                request: Option<IbcCreatePoolMsg>,
                amount_a: u128,
                amount_b: u128,
                owner_valid: bool,
                r: Result<PacketAck, ContractError>,
            |
                #[trigger] receive_spec(
                    states[k],
                    states[k + 1],
                    self_address,
                    request,
                    amount_a,
                    amount_b,
                    owner_valid,
                    r,
                ) && r is Ok;
            assert(states[k + 1].counter == bumped(states[k].counter, PACKET_RECEIVE_STEP));
        }
    }
}

/// The weight of a run is at least the weight of any of its prefixes.
proof fn lemma_event_weight_grows(events: Seq<bool>)
    requires
        events.len() > 0,
    ensures
        event_weight(events.drop_last()) <= event_weight(events),
{
}

} // verus!
