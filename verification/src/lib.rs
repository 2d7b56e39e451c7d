//! Pre-block mandatory system calls for an Ethereum-compatible block
//! execution engine.
//!
//! Before the ordinary transactions of a block run, the protocol mandates two
//! conditional contract calls: the blockhash-history accumulator call
//! (EIP-2935) and the beacon-root exposure call (EIP-4788). This crate holds
//! the consensus-critical branching rules of those two call sites: hardfork
//! gating by timestamp, genesis-block special cases, validation of the parent
//! beacon block root, dispatch through an execution-engine handle, and the
//! mapping of engine failures to block-validation errors.

pub mod constants;
pub mod eip2935;
pub mod eip4788;
pub mod evm;
pub mod errors;
pub mod hardforks;
pub mod types;

pub use types::{Address, B256};
