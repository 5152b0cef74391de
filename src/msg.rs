use vstd::prelude::*;

verus! {

/// An amount of one denomination.
#[derive(Clone, Debug, PartialEq, Eq)]
pub struct Token {
    pub denom: String,
    pub amount: u128,
}

/// The message that sets the contract up; it carries nothing.
#[derive(Clone, Debug, PartialEq, Eq)]
pub struct InstantiateMsg {}

/// A pool-creation command as it travels inside an inbound packet.
#[derive(Clone, Debug, PartialEq, Eq)]
pub struct IbcCreatePoolMsg {
    pub token_a: Token,
    pub token_b: Token,
    pub lp_owner: String,
}

/// The commands the contract executes.
#[derive(Clone, Debug, PartialEq, Eq)]
pub enum ExecuteMsg {
    CreatePool { token_a: Token, token_b: Token, lp_owner: String },
    WithdrawLockedLpShares {},
}

/// The commands a packet hook may carry.
#[derive(Clone, Debug, PartialEq, Eq)]
pub enum IbcHookMsg {
    CreatePool { token_a: Token, token_b: Token, lp_owner: String },
}

/// The read-only questions the contract answers.
#[derive(Clone, Copy, Debug, PartialEq, Eq, Structural)]
pub enum QueryMsg {
    GetChannelInfo {},
    GetCounter {},
}

/// Privileged notifications from the chain.
#[derive(Clone, Debug, PartialEq, Eq)]
pub enum SudoMsg {
    IBCLifecycleComplete(IBCLifecycleComplete),
}

/// The end of a sent packet's life: acknowledged or timed out.
#[derive(Clone, Debug, PartialEq, Eq)]
pub enum IBCLifecycleComplete {
    IBCAck { channel: String, sequence: u64, ack: String, success: bool },
    IBCTimeout { channel: String, sequence: u64 },
}

/// The `wasm` section of an inbound packet: the contract it names and the
/// command text it carries.
#[derive(Clone, Debug, PartialEq, Eq)]
pub struct ContractMessage {
    pub contract: String,
    pub msg: String,
}

} // verus!
