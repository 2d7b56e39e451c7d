//! Block-validation errors of the two system-call sites, and the
//! block-execution error that wraps them. Every failure here is fatal to the
//! validity of the block: nothing is retried or locally recovered.

use vstd::prelude::*;
use crate::types::B256;

verus! {

/// A violation of the pre-block system-call rules.
#[derive(PartialEq, Eq, Debug)]
pub enum BlockValidationError {
    /// The beacon-root hardfork is active, but the caller supplied no parent
    /// beacon block root.
    MissingParentBeaconBlockRoot,
    /// At genesis the parent beacon block root must be the zero hash; the
    /// offending value is carried along.
    CancunGenesisParentBeaconBlockRootNotZero { parent_beacon_block_root: B256 },
    /// The engine could not execute the blockhash-history call at all; the
    /// message is the engine failure's description, verbatim.
    BlockHashContractCall { message: String },
    /// The engine could not execute the beacon-root call at all; the root
    /// that was passed and the engine failure's description are carried
    /// along, verbatim.
    BeaconRootContractCall { parent_beacon_block_root: B256, message: String },
}

/// Model of a [`BlockValidationError`]: messages become character sequences.
#[verifier::ext_equal]
pub enum BlockValidationErrorView {
    MissingParentBeaconBlockRoot,
    CancunGenesisParentBeaconBlockRootNotZero { parent_beacon_block_root: B256 },
    BlockHashContractCall { message: Seq<char> },
    BeaconRootContractCall { parent_beacon_block_root: B256, message: Seq<char> },
}

impl View for BlockValidationError {
    type V = BlockValidationErrorView;

    open spec fn view(&self) -> BlockValidationErrorView {
        match self {
            BlockValidationError::MissingParentBeaconBlockRoot => {
                BlockValidationErrorView::MissingParentBeaconBlockRoot
            },
            BlockValidationError::CancunGenesisParentBeaconBlockRootNotZero {
                parent_beacon_block_root,
            } => {
                BlockValidationErrorView::CancunGenesisParentBeaconBlockRootNotZero {
                    parent_beacon_block_root: *parent_beacon_block_root,
                }
            },
            BlockValidationError::BlockHashContractCall { message } => {
                BlockValidationErrorView::BlockHashContractCall { message: message@ }
            },
            BlockValidationError::BeaconRootContractCall { parent_beacon_block_root, message } => {
                BlockValidationErrorView::BeaconRootContractCall {
                    parent_beacon_block_root: *parent_beacon_block_root,
                    message: message@,
                }
            },
        }
    }
}

/// The error a block-execution pipeline surfaces; the pre-block system calls
/// only ever produce its validation variant.
#[derive(PartialEq, Eq, Debug)]
pub enum BlockExecutionError {
    Validation(BlockValidationError),
}

/// Model of a [`BlockExecutionError`].
#[verifier::ext_equal]
pub enum BlockExecutionErrorView {
    Validation(BlockValidationErrorView),
}

impl View for BlockExecutionError {
    type V = BlockExecutionErrorView;

    open spec fn view(&self) -> BlockExecutionErrorView {
        match self {
            BlockExecutionError::Validation(e) => BlockExecutionErrorView::Validation(e@),
        }
    }
}

impl BlockValidationError {
    /// Wraps the validation error into the block-execution error.
    pub fn into_execution_error(self) -> (r: BlockExecutionError)
        ensures
            r@ == BlockExecutionErrorView::Validation(self@),
    {
        BlockExecutionError::Validation(self)
    }
}

} // verus!
