use vstd::prelude::*;

verus! {

/// The distinguishable failures of the contract's entry points.
#[derive(Clone, Copy, Debug, PartialEq, Eq, Structural)]
pub enum ContractError {
    /// The two deposited amounts differ.
    RatioMismatch,
    /// The designated share owner is not a valid address.
    InvalidAddress,
    /// The pool-creation confirmation failed or carried no usable pool id.
    ConfirmationDataMissing,
    /// A confirmation arrived while no creation request was pending.
    NoPendingCreation,
    /// The unlock time does not fit in a `u64` timestamp.
    UnlockTimeOverflow,
    /// The caller has no shares in escrow.
    NoLockedShares,
    /// The caller's shares unlock only after `remaining` more seconds.
    StillLocked { remaining: u64 },
    /// No messaging channel is connected.
    NoChannel,
}

} // verus!
