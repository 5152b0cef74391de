use vstd::prelude::*;

use crate::contract::{create_pool, dispatch_of, with_pending, Dispatch};
use crate::error::ContractError;
use crate::msg::{ContractMessage, ExecuteMsg, IbcCreatePoolMsg, Token};
use crate::state::{ChannelInfo, ContractState};

verus! {

/// Counter step for each received packet.
pub const PACKET_RECEIVE_STEP: u64 = 5;

/// Counter step for each destination-side callback.
pub const DESTINATION_CALLBACK_STEP: u64 = 1;

/// `counter` grown by `step`, held at `u64::MAX` once it gets there.
pub open spec fn bumped(counter: u64, step: u64) -> u64 {
    if counter + step > u64::MAX {
        u64::MAX
    } else {
        (counter + step) as u64
    }
}

/// `state` with its counter grown by `step`.
pub open spec fn with_bump(state: ContractState, step: u64) -> ContractState {
    ContractState { counter: bumped(state.counter, step), ..state }
}

/// Grows the counter by `step`.
fn bump_counter(state: &mut ContractState, step: u64)
    ensures
        *final(state) == with_bump(*old(state), step),
{
    state.counter = state.counter.saturating_add(step);
}

/// The acknowledgment of a received packet.
#[derive(Clone, Debug, PartialEq, Eq)]
pub enum PacketAck {
    /// The packet held no routable command; acknowledged as a success.
    Unroutable,
    /// The packet's command issued a pool-creation request.
    PoolRequested(Dispatch),
}

/// How the counterpart answered a packet this contract sent.
#[derive(Clone, Copy, Debug, PartialEq, Eq, Structural)]
pub enum AckOutcome {
    Acknowledged,
    AckError,
}

/// The creation command that a packet routes, if any: the packet must have a
/// `wasm` section whose `contract` and `msg` are both non-empty, and whose
/// `msg` decoded as a create-pool command.
pub open spec fn routed_command(
    envelope: Option<ContractMessage>,
    command: Option<ExecuteMsg>,
) -> Option<IbcCreatePoolMsg> {
    match envelope {
        Some(m) => if m.contract@.len() > 0 && m.msg@.len() > 0 {
            match command {
                Some(ExecuteMsg::CreatePool { token_a, token_b, lp_owner }) => Some(
                    IbcCreatePoolMsg { token_a, token_b, lp_owner },
                ),
                _ => None,
            }
        } else {
            None
        },
        None => None,
    }
}

/// Picks the creation command out of a decoded packet.
///
/// `envelope` is the packet's `wasm` section (`None` where the packet has none
/// or is not of that shape); `command` is its `msg` decoded as a command
/// (`None` where it does not decode).
pub fn route_packet(envelope: Option<ContractMessage>, command: Option<ExecuteMsg>) -> (r: Option<
    IbcCreatePoolMsg,
>)
    ensures
        r == routed_command(envelope, command),
{
    match envelope {
        Some(m) => {
            if m.contract.as_str().is_empty() || m.msg.as_str().is_empty() {
                return None;
            }
            match command {
                Some(ExecuteMsg::CreatePool { token_a, token_b, lp_owner }) => Some(
                    IbcCreatePoolMsg { token_a, token_b, lp_owner },
                ),
                _ => None,
            }
        },
        None => None,
    }
}

/// What `ibc_packet_receive` does: from `pre` to `post`, with result `r`.
pub open spec fn receive_spec(
    pre: ContractState,
    post: ContractState,
    self_address: String,
    request: Option<IbcCreatePoolMsg>,
    amount_a: u128,
    amount_b: u128,
    owner_valid: bool,
    r: Result<PacketAck, ContractError>,
) -> bool {
    match request {
        None => r == Ok::<PacketAck, ContractError>(PacketAck::Unroutable) && post
            == with_bump(pre, PACKET_RECEIVE_STEP),
        Some(q) => if amount_a != amount_b {
            r == Err::<PacketAck, ContractError>(ContractError::RatioMismatch) && post
                == pre
        } else if !owner_valid {
            r == Err::<PacketAck, ContractError>(ContractError::InvalidAddress) && post
                == pre
        } else {
            r == Ok::<PacketAck, ContractError>(
                PacketAck::PoolRequested(
                    dispatch_of(
                        self_address,
                        Token { denom: q.token_a.denom, amount: amount_a },
                        Token { denom: q.token_b.denom, amount: amount_b },
                        q.lp_owner,
                    ),
                ),
            ) && post == with_pending(
                with_bump(pre, PACKET_RECEIVE_STEP),
                self_address,
            )
        },
    }
}

/// Handles a received packet whose routed command is `request`.
///
/// The transferred funds are already in the contract's balance: `amount_a`
/// and `amount_b` are that balance in the two requested denominations. The
/// request is dispatched with those amounts and with the contract itself as
/// sender. On success the counter grows by the packet step; on failure
/// nothing changes.
pub fn ibc_packet_receive(
    state: &mut ContractState,
    self_address: &String,
    request: Option<IbcCreatePoolMsg>,
    amount_a: u128,
    amount_b: u128,
    owner_valid: bool,
) -> (r: Result<PacketAck, ContractError>)
    ensures
        receive_spec(
            *old(state),
            *final(state),
            *self_address,
            request,
            amount_a,
            amount_b,
            owner_valid,
            r,
        ),
{
    match request {
        None => {
            bump_counter(state, PACKET_RECEIVE_STEP);
            Ok(PacketAck::Unroutable)
        },
        Some(q) => {
            let token_a = Token { denom: q.token_a.denom, amount: amount_a };
            let token_b = Token { denom: q.token_b.denom, amount: amount_b };
            match create_pool(
                state,
                self_address,
                self_address,
                token_a,
                token_b,
                q.lp_owner,
                owner_valid,
            ) {
                Ok(d) => {
                    bump_counter(state, PACKET_RECEIVE_STEP);
                    Ok(PacketAck::PoolRequested(d))
                },
                Err(e) => Err(e),
            }
        },
    }
}

/// Counts a destination-side callback.
pub fn ibc_destination_callback(state: &mut ContractState)
    ensures
        *final(state) == with_bump(*old(state), DESTINATION_CALLBACK_STEP),
{
    bump_counter(state, DESTINATION_CALLBACK_STEP);
}

/// Records `channel` as the connected channel, replacing any earlier one.
pub fn ibc_channel_connect(state: &mut ContractState, channel: ChannelInfo)
    ensures
        *final(state) == (ContractState { channel_info: Some(channel), ..*old(state) }),
{
    state.channel_info = Some(channel);
}

/// Forgets the connected channel.
pub fn ibc_channel_close(state: &mut ContractState)
    ensures
        *final(state) == (ContractState { channel_info: None, ..*old(state) }),
{
    state.channel_info = None;
}

/// Whether an acknowledgment's bytes are JSON text of a base64 binary.
pub uninterp spec fn is_json_binary(data: Seq<u8>) -> bool;

/// Relies on `serde_json::from_slice` into `cosmwasm_std::Binary`, whose
/// success depends on the bytes alone.
#[verifier::external_body]
fn decodes_as_binary(data: &Vec<u8>) -> (r: bool)
    ensures
        r == is_json_binary(data@),
{
    serde_json::from_slice::<cosmwasm_std::Binary>(data).is_ok()
}

/// The outcome of an acknowledgment, given whether its bytes decoded.
pub fn ack_outcome(decoded: bool) -> (r: AckOutcome)
    ensures
        r == (if decoded { AckOutcome::Acknowledged } else { AckOutcome::AckError }),
{
    if decoded {
        AckOutcome::Acknowledged
    } else {
        AckOutcome::AckError
    }
}

/// Classifies the acknowledgment bytes of a packet this contract sent.
pub fn ibc_packet_ack(data: &Vec<u8>) -> (r: AckOutcome)
    ensures
        r == (if is_json_binary(data@) { AckOutcome::Acknowledged } else { AckOutcome::AckError }),
{
    ack_outcome(decodes_as_binary(data))
}

} // verus!
