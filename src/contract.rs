use vstd::prelude::*;

use crate::error::ContractError;
use crate::msg::{ExecuteMsg, InstantiateMsg, QueryMsg, Token};
use crate::state::{ChannelInfo, ContractState, LockedShares, LOCK_DURATION};

verus! {

/// Correlation tag carried by every pool-creation call and its confirmation.
pub const CREATE_POOL_REPLY_ID: u64 = 1;

/// Weight of each of the two pool assets (equal weights: a 50/50 pool).
pub const POOL_ASSET_WEIGHT: u64 = 500000;

/// Swap fee of a created pool, as an 18-decimal fraction (0.3%).
pub const POOL_SWAP_FEE: u128 = 3000000000000000;

/// Exit fee of a created pool, as an 18-decimal fraction.
pub const POOL_EXIT_FEE: u128 = 0;

/// Share quantity recorded in escrow for each confirmed pool.
pub const LOCKED_SHARE_AMOUNT: u128 = 1000000;

/// The call to the pool engine that creates a two-asset pool.
#[derive(Clone, Debug, PartialEq, Eq)]
pub struct PoolCreationCall {
    pub sender: String,
    pub asset_a: Token,
    pub asset_b: Token,
    pub weight: u64,
    pub swap_fee: u128,
    pub exit_fee: u128,
    pub future_pool_governor: String,
}

/// A dispatched creation request: the deferred call, the tag its
/// confirmation comes back with, and the owner named in the request.
#[derive(Clone, Debug, PartialEq, Eq)]
pub struct Dispatch {
    pub call: PoolCreationCall,
    pub reply_id: u64,
    pub lp_owner: String,
}

/// What a confirmed creation put in escrow.
#[derive(Clone, Debug, PartialEq, Eq)]
pub struct Confirmation {
    pub owner: String,
    pub pool_id: u128,
    pub unlock_time: u64,
}

/// The result that the host hands back for a deferred call.
#[derive(Clone, Debug, PartialEq, Eq)]
pub enum SubCallResult {
    Success { data: Option<Vec<u8>> },
    Failure { message: String },
}

/// What a confirmation did.
#[derive(Clone, Debug, PartialEq, Eq)]
pub enum ReplyOutcome {
    /// The result carried another tag and was passed over.
    Ignored,
    Confirmed(Confirmation),
}

/// An outbound transfer of released shares.
#[derive(Clone, Debug, PartialEq, Eq)]
pub struct Transfer {
    pub to_address: String,
    pub denom: String,
    pub amount: u128,
}

/// What an executed command did.
#[derive(Clone, Debug, PartialEq, Eq)]
pub enum ExecuteOutcome {
    PoolRequested(Dispatch),
    Withdrawn(Transfer),
}

/// The answer to a query.
#[derive(Clone, Debug, PartialEq, Eq)]
pub enum QueryAnswer {
    Channel(ChannelInfo),
    Counter(u64),
}

/// The pool id that the engine's encoded creation response carries, if the
/// bytes decode as such a response.
pub uninterp spec fn created_pool_id(data: Seq<u8>) -> Option<u64>;

/// Relies on the protobuf decoding of `MsgCreateBalancerPoolResponse` from a
/// `Binary` (osmosis-std), which depends on the bytes alone.
#[verifier::external_body]
fn decode_pool_id(data: &Vec<u8>) -> (r: Option<u64>)
    ensures
        r == created_pool_id(data@),
{
    let binary = cosmwasm_std::Binary::from(data.clone());
    let decoded: Result<
        osmosis_std::types::osmosis::gamm::poolmodels::balancer::v1beta1::MsgCreateBalancerPoolResponse,
        cosmwasm_std::StdError,
    > = binary.try_into();
    match decoded {
        Ok(res) => Some(res.pool_id),
        Err(_) => None,
    }
}

/// The character of a decimal digit.
pub open spec fn digit_char(d: nat) -> char {
    if d == 0 { '0' }
    else if d == 1 { '1' }
    else if d == 2 { '2' }
    else if d == 3 { '3' }
    else if d == 4 { '4' }
    else if d == 5 { '5' }
    else if d == 6 { '6' }
    else if d == 7 { '7' }
    else if d == 8 { '8' }
    else { '9' }
}

/// The decimal text of `n`, without leading zeros.
pub open spec fn decimal(n: nat) -> Seq<char>
    decreases n,
{
    if n < 10 {
        seq![digit_char(n)]
    } else {
        decimal(n / 10).push(digit_char(n % 10))
    }
}

/// Relies on the decimal `Display` of `u128`.
#[verifier::external_body]
fn decimal_text(n: u128) -> (r: String)
    ensures
        r@ == decimal(n as nat),
{
    n.to_string()
}

/// The denomination of the share token of pool `pool_id`.
pub open spec fn share_denom(pool_id: nat) -> Seq<char> {
    "lp-share-token/pool/"@ + decimal(pool_id)
}

/// `state` with `sender` as the pending requester.
pub open spec fn with_pending(state: ContractState, sender: String) -> ContractState {
    ContractState { pending_sender: Some(sender), ..state }
}

/// The deferred call that a valid request issues.
pub open spec fn dispatch_of(
    contract_address: String,
    token_a: Token,
    token_b: Token,
    lp_owner: String,
) -> Dispatch {
    Dispatch {
        call: PoolCreationCall {
            sender: contract_address,
            asset_a: token_a,
            asset_b: token_b,
            weight: POOL_ASSET_WEIGHT,
            swap_fee: POOL_SWAP_FEE,
            exit_fee: POOL_EXIT_FEE,
            future_pool_governor: lp_owner,
        },
        reply_id: CREATE_POOL_REPLY_ID,
        lp_owner,
    }
}

/// What `create_pool` does: from `pre` to `post`, with result `r`.
pub open spec fn dispatch_spec(
    pre: ContractState,
    post: ContractState,
    contract_address: String,
    sender: String,
    token_a: Token,
    token_b: Token,
    lp_owner: String,
    owner_valid: bool,
    r: Result<Dispatch, ContractError>,
) -> bool {
    if token_a.amount != token_b.amount {
        r == Err::<Dispatch, ContractError>(ContractError::RatioMismatch) && post == pre
    } else if !owner_valid {
        r == Err::<Dispatch, ContractError>(ContractError::InvalidAddress) && post == pre
    } else {
        r == Ok::<Dispatch, ContractError>(dispatch_of(contract_address, token_a, token_b, lp_owner))
            && post == with_pending(pre, sender)
    }
}

/// Whether `now` plus the lock period fits in a timestamp.
pub open spec fn unlock_fits(state: ContractState, now: u64) -> bool {
    now + state.lock_duration <= u64::MAX
}

/// What `confirm_creation` does: from `pre` to `post`, with result `r`.
pub open spec fn confirm_spec(
    pre: ContractState,
    post: ContractState,
    pool_id: u64,
    now: u64,
    r: Result<Confirmation, ContractError>,
) -> bool {
    match pre.pending_sender {
        None => r == Err::<Confirmation, ContractError>(ContractError::NoPendingCreation) && post == pre,
        Some(owner) => if !unlock_fits(pre, now) {
            r == Err::<Confirmation, ContractError>(ContractError::UnlockTimeOverflow) && post == pre
        } else {
            let unlock_time = (now + pre.lock_duration) as u64;
            &&& r == Ok::<Confirmation, ContractError>(
                Confirmation { owner, pool_id: pool_id as u128, unlock_time },
            )
            &&& post.pending_sender.is_none()
            &&& post.escrow() == pre.escrow().insert(
                owner@,
                LockedShares { pool_id: pool_id as u128, amount: LOCKED_SHARE_AMOUNT, unlock_time },
            )
            &&& post.lock_duration == pre.lock_duration
            &&& post.counter == pre.counter
            &&& post.channel_info == pre.channel_info
        },
    }
}

/// What `withdraw_locked_lp_shares` does: from `pre` to `post`, with result `r`.
pub open spec fn withdraw_spec(
    pre: ContractState,
    post: ContractState,
    sender: String,
    now: u64,
    r: Result<Transfer, ContractError>,
) -> bool {
    if !pre.escrow().dom().contains(sender@) {
        r == Err::<Transfer, ContractError>(ContractError::NoLockedShares) && post == pre
    } else {
        let shares = pre.escrow()[sender@];
        if now < shares.unlock_time {
            r == Err::<Transfer, ContractError>(
                ContractError::StillLocked { remaining: (shares.unlock_time - now) as u64 },
            ) && post == pre
        } else {
            &&& r is Ok
            &&& r->Ok_0.to_address == sender
            &&& r->Ok_0.denom@ == share_denom(shares.pool_id as nat)
            &&& r->Ok_0.amount == shares.amount
            &&& post.escrow() == pre.escrow().remove(sender@)
            &&& post.lock_duration == pre.lock_duration
            &&& post.counter == pre.counter
            &&& post.channel_info == pre.channel_info
            &&& post.pending_sender == pre.pending_sender
        }
    }
}

/// Sets the contract up: the fixed lock period, a zero counter, nothing else.
pub fn instantiate(msg: InstantiateMsg) -> (r: ContractState)
    ensures
        r.lock_duration == LOCK_DURATION,
        r.counter == 0,
        r.channel_info.is_none(),
        r.pending_sender.is_none(),
        r.escrow() == Map::<Seq<char>, LockedShares>::empty(),
{
    ContractState::new(LOCK_DURATION)
}

/// Validates a creation request and issues the deferred pool-creation call.
///
/// `owner_valid` says whether `lp_owner` is a valid address on this chain.
/// The shares go in escrow under `sender`, who need not be `lp_owner`.
pub fn create_pool(
    state: &mut ContractState,
    contract_address: &String,
    sender: &String,
    token_a: Token,
    token_b: Token,
    lp_owner: String,
    owner_valid: bool,
) -> (r: Result<Dispatch, ContractError>)
    ensures
        dispatch_spec(
            *old(state),
            *final(state),
            *contract_address,
            *sender,
            token_a,
            token_b,
            lp_owner,
            owner_valid,
            r,
        ),
{
    if token_a.amount != token_b.amount {
        return Err(ContractError::RatioMismatch);
    }
    if !owner_valid {
        return Err(ContractError::InvalidAddress);
    }
    state.pending_sender = Some(sender.clone());
    let governor = lp_owner.clone();
    Ok(Dispatch {
        call: PoolCreationCall {
            sender: contract_address.clone(),
            asset_a: token_a,
            asset_b: token_b,
            weight: POOL_ASSET_WEIGHT,
            swap_fee: POOL_SWAP_FEE,
            exit_fee: POOL_EXIT_FEE,
            future_pool_governor: governor,
        },
        reply_id: CREATE_POOL_REPLY_ID,
        lp_owner,
    })
}

/// Completes the pending request with the pool id that the engine reported:
/// the pending requester's shares go in escrow until `now` plus the lock period.
pub fn confirm_creation(state: &mut ContractState, pool_id: u64, now: u64) -> (r: Result<
    Confirmation,
    ContractError,
>)
    ensures
        confirm_spec(*old(state), *final(state), pool_id, now, r),
{
    let owner = match &state.pending_sender {
        None => {
            return Err(ContractError::NoPendingCreation);
        },
        Some(owner) => owner.clone(),
    };
    if now > u64::MAX - state.lock_duration {
        return Err(ContractError::UnlockTimeOverflow);
    }
    let unlock_time = now + state.lock_duration;
    state.pending_sender = None;
    let shares = LockedShares { pool_id: pool_id as u128, amount: LOCKED_SHARE_AMOUNT, unlock_time };
    state.set_locked(&owner, shares);
    Ok(Confirmation { owner, pool_id: pool_id as u128, unlock_time })
}

/// Handles the host's result for a deferred call tagged `id`.
pub fn reply(state: &mut ContractState, id: u64, result: &SubCallResult, now: u64) -> (r: Result<
    ReplyOutcome,
    ContractError,
>)
    ensures
        id != CREATE_POOL_REPLY_ID ==> r == Ok::<ReplyOutcome, ContractError>(ReplyOutcome::Ignored)
            && *final(state) == *old(state),
        id == CREATE_POOL_REPLY_ID ==> match result {
            SubCallResult::Success { data: Some(data) } => match created_pool_id(data@) {
                Some(pool_id) => exists|c: Result<Confirmation, ContractError>|
                    confirm_spec(*old(state), *final(state), pool_id, now, c) && r == match c {
                        Ok(c) => Ok::<ReplyOutcome, ContractError>(ReplyOutcome::Confirmed(c)),
                        Err(e) => Err(e),
                    },
                None => r == Err::<ReplyOutcome, ContractError>(ContractError::ConfirmationDataMissing)
                    && *final(state) == *old(state),
            },
            _ => r == Err::<ReplyOutcome, ContractError>(ContractError::ConfirmationDataMissing)
                && *final(state) == *old(state),
        },
{
    if id != CREATE_POOL_REPLY_ID {
        return Ok(ReplyOutcome::Ignored);
    }
    let data = match result {
        SubCallResult::Success { data: Some(data) } => data,
        _ => {
            return Err(ContractError::ConfirmationDataMissing);
        },
    };
    let pool_id = match decode_pool_id(data) {
        Some(pool_id) => pool_id,
        None => {
            return Err(ContractError::ConfirmationDataMissing);
        },
    };
    match confirm_creation(state, pool_id, now) {
        Ok(c) => Ok(ReplyOutcome::Confirmed(c)),
        Err(e) => Err(e),
    }
}

/// Releases `sender`'s escrowed shares once their unlock time has come.
pub fn withdraw_locked_lp_shares(state: &mut ContractState, sender: &String, now: u64) -> (r:
    Result<Transfer, ContractError>)
    ensures
        withdraw_spec(*old(state), *final(state), *sender, now, r),
{
    let shares = match state.locked_shares_of(sender) {
        None => {
            return Err(ContractError::NoLockedShares);
        },
        Some(shares) => shares,
    };
    if now < shares.unlock_time {
        return Err(ContractError::StillLocked { remaining: shares.unlock_time - now });
    }
    state.remove_locked(sender);
    let mut denom = String::from_str("lp-share-token/pool/");
    let digits = decimal_text(shares.pool_id);
    denom.append(digits.as_str());
    Ok(Transfer { to_address: sender.clone(), denom, amount: shares.amount })
}

/// Runs a command sent by `sender` at time `now`.
pub fn execute(
    state: &mut ContractState,
    contract_address: &String,
    sender: &String,
    msg: ExecuteMsg,
    owner_valid: bool,
    now: u64,
) -> (r: Result<ExecuteOutcome, ContractError>)
    ensures
        match msg {
            ExecuteMsg::CreatePool { token_a, token_b, lp_owner } => exists|d: Result<
                Dispatch,
                ContractError,
            >|
                dispatch_spec(
                    *old(state),
                    *final(state),
                    *contract_address,
                    *sender,
                    token_a,
                    token_b,
                    lp_owner,
                    owner_valid,
                    d,
                ) && r == match d {
                    Ok(d) => Ok::<ExecuteOutcome, ContractError>(ExecuteOutcome::PoolRequested(d)),
                    Err(e) => Err(e),
                },
            ExecuteMsg::WithdrawLockedLpShares {  } => exists|t: Result<Transfer, ContractError>|
                withdraw_spec(*old(state), *final(state), *sender, now, t) && r == match t {
                    Ok(t) => Ok::<ExecuteOutcome, ContractError>(ExecuteOutcome::Withdrawn(t)),
                    Err(e) => Err(e),
                },
        },
{
    match msg {
        ExecuteMsg::CreatePool { token_a, token_b, lp_owner } => {
            match create_pool(state, contract_address, sender, token_a, token_b, lp_owner, owner_valid) {
                Ok(d) => Ok(ExecuteOutcome::PoolRequested(d)),
                Err(e) => Err(e),
            }
        },
        ExecuteMsg::WithdrawLockedLpShares {  } => {
            match withdraw_locked_lp_shares(state, sender, now) {
                Ok(t) => Ok(ExecuteOutcome::Withdrawn(t)),
                Err(e) => Err(e),
            }
        },
    }
}

/// The telemetry counter.
pub fn query_counter(state: &ContractState) -> (r: u64)
    ensures
        r == state.counter,
{
    state.counter
}

/// The connected channel, or `NoChannel` when none is.
pub fn query_channel_info(state: &ContractState) -> (r: Result<ChannelInfo, ContractError>)
    ensures
        r == match state.channel_info {
            Some(c) => Ok::<ChannelInfo, ContractError>(c),
            None => Err(ContractError::NoChannel),
        },
{
    match &state.channel_info {
        Some(c) => Ok(c.duplicate()),
        None => Err(ContractError::NoChannel),
    }
}

/// Answers a query.
pub fn query(state: &ContractState, msg: QueryMsg) -> (r: Result<QueryAnswer, ContractError>)
    ensures
        r == match msg {
            QueryMsg::GetChannelInfo {  } => match state.channel_info {
                Some(c) => Ok::<QueryAnswer, ContractError>(QueryAnswer::Channel(c)),
                None => Err(ContractError::NoChannel),
            },
            QueryMsg::GetCounter {  } => Ok(QueryAnswer::Counter(state.counter)),
        },
{
    match msg {
        QueryMsg::GetChannelInfo {  } => match query_channel_info(state) {
            Ok(c) => Ok(QueryAnswer::Channel(c)),
            Err(e) => Err(e),
        },
        QueryMsg::GetCounter {  } => Ok(QueryAnswer::Counter(query_counter(state))),
    }
}

} // verus!
