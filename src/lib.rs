//! A gateway contract that turns two equal deposits into a liquidity pool and
//! keeps the resulting pool shares in a time-locked escrow.
//!
//! The contract's storage is modelled as one explicit [`state::ContractState`];
//! every entry point is a verified transition on it.
use vstd::prelude::*;

pub mod error;
pub mod msg;
pub mod state;
pub mod contract;
pub mod ibc;
pub mod laws;
