//! The beacon-root system call (EIP-4788): before a block's own transactions
//! run, and once the Cancun hardfork is active, the parent beacon block root
//! is exposed to the execution layer by a protocol-mandated system call. The
//! root is a required input under the active fork, and at genesis it must be
//! the zero hash.

use vstd::prelude::*;
use crate::constants::{
    beacon_roots_address, spec_beacon_roots_address, spec_system_address, system_address,
};
use crate::errors::{
    BlockExecutionError, BlockExecutionErrorView, BlockValidationError, BlockValidationErrorView,
};
use crate::evm::{call_outcome_view, Evm};
use crate::hardforks::EthereumHardforks;
use crate::types::{B256, ResultAndState, ResultAndStateView, SystemCall};

verus! {

/// The one call this site ever dispatches: the fixed system sender, the
/// beacon-roots contract, and the 32-byte root as the raw input payload.
pub open spec fn beacon_root_system_call(parent_beacon_block_root: B256) -> SystemCall {
    SystemCall {
        sender: spec_system_address(),
        target: spec_beacon_roots_address(),
        input: parent_beacon_block_root,
    }
}

/// Whether this call site dispatches at all: only when the hardfork is
/// active at the block's timestamp, a root was supplied, and the block is
/// not the genesis block.
pub open spec fn beacon_root_dispatches(
    cancun_active: bool,
    number: u64,
    parent_beacon_block_root: Option<B256>,
) -> bool {
    cancun_active && parent_beacon_block_root is Some && number != 0
}

/// What the beacon-root call site returns, as a function of hardfork
/// activation, the block height, the supplied root, and what the engine returns for the
/// dispatched call: "no call" when gated off, before the root is even
/// inspected; a missing-root error when the fork is active but no root was
/// supplied; at genesis, "no call" for the zero root and a genesis-invariant
/// error, carrying the offending value, for any other; otherwise the engine's
/// outcome handed through unexamined on success, and the mapped taxonomy
/// error, carrying the root and the engine failure's description verbatim,
/// when the engine cannot execute the call at all.
pub open spec fn beacon_root_outcome<Halt>(
    cancun_active: bool,
    number: u64,
    parent_beacon_block_root: Option<B256>,
    engine: Result<ResultAndStateView<Halt>, Seq<char>>,
) -> Result<Option<ResultAndStateView<Halt>>, BlockExecutionErrorView> {
    if !cancun_active {
        Ok(None)
    } else {
        match parent_beacon_block_root {
            None => Err(
                BlockExecutionErrorView::Validation(
                    BlockValidationErrorView::MissingParentBeaconBlockRoot,
                ),
            ),
            Some(root) => {
                if number == 0 {
                    if !root.spec_is_zero() {
                        Err(
                            BlockExecutionErrorView::Validation(
                                BlockValidationErrorView::CancunGenesisParentBeaconBlockRootNotZero {
                                    parent_beacon_block_root: root,
                                },
                            ),
                        )
                    } else {
                        Ok(None)
                    }
                } else {
                    match engine {
                        Ok(res) => Ok(Some(res)),
                        Err(message) => Err(
                            BlockExecutionErrorView::Validation(
                                BlockValidationErrorView::BeaconRootContractCall {
                                    parent_beacon_block_root: root,
                                    message,
                                },
                            ),
                        ),
                    }
                }
            },
        }
    }
}

/// Applies the pre-block call to the EIP-4788 beacon-roots contract.
///
/// If Cancun is not active at the block's timestamp this is a no-op and the
/// supplied root is not even inspected. Under the active fork the root is
/// required; at the genesis block it must be the zero hash and no call is
/// dispatched. Otherwise the call is dispatched exactly once, with the fixed
/// system sender, the fixed beacon-roots contract target, and the root
/// verbatim as input. The state changes are only transacted, never committed.
pub fn transact_beacon_root_contract_call<S: EthereumHardforks, E: Evm>(
    chain_spec: &S,
    parent_beacon_block_root: Option<B256>,
    evm: &mut E,
) -> (r: Result<Option<ResultAndState<E::HaltReason>>, BlockExecutionError>)
    ensures
        call_outcome_view(r) == beacon_root_outcome(
            chain_spec.cancun_active(old(evm).block_view().timestamp),
            old(evm).block_view().number,
            parent_beacon_block_root,
            old(evm).outcome_of(beacon_root_system_call(parent_beacon_block_root.unwrap())),
        ),
        beacon_root_dispatches(
            chain_spec.cancun_active(old(evm).block_view().timestamp),
            old(evm).block_view().number,
            parent_beacon_block_root,
        ) ==> final(evm).calls() == old(evm).calls().push(
            beacon_root_system_call(parent_beacon_block_root.unwrap()),
        ),
        !beacon_root_dispatches(
            chain_spec.cancun_active(old(evm).block_view().timestamp),
            old(evm).block_view().number,
            parent_beacon_block_root,
        ) ==> *final(evm) == *old(evm),
        final(evm).block_view() == old(evm).block_view(),
        forall|c: SystemCall| #[trigger] final(evm).outcome_of(c) == old(evm).outcome_of(c),
{
    if !chain_spec.is_cancun_active_at_timestamp(evm.block().timestamp) {
        return Ok(None);
    }

    let root = match parent_beacon_block_root {
        Some(root) => root,
        None => {
            return Err(
                BlockValidationError::MissingParentBeaconBlockRoot.into_execution_error(),
            );
        },
    };

    // At the genesis block the parent beacon block root must be the zero
    // hash and no system transaction may occur, as EIP-4788 mandates.
    if evm.block().number == 0 {
        if !root.is_zero() {
            return Err(
                BlockValidationError::CancunGenesisParentBeaconBlockRootNotZero {
                    parent_beacon_block_root: root,
                }.into_execution_error(),
            );
        }
        return Ok(None);
    }

    let sender = system_address();
    let target = beacon_roots_address();
    match evm.transact_system_call(sender, target, root) {
        Ok(res) => Ok(Some(res)),
        Err(e) => Err(
            BlockValidationError::BeaconRootContractCall {
                parent_beacon_block_root: root,
                message: e,
            }.into_execution_error(),
        ),
    }
}

/// Law: where the hardfork is inactive the outcome is "no call", whatever
/// root was supplied and whatever the engine would have returned — neither
/// is even inspected.
pub proof fn lemma_beacon_root_inactive_no_call<Halt>(
    number: u64,
    parent_beacon_block_root: Option<B256>,
    engine: Result<ResultAndStateView<Halt>, Seq<char>>,
)
    ensures
        beacon_root_outcome(false, number, parent_beacon_block_root, engine) == Ok::<
            Option<ResultAndStateView<Halt>>,
            BlockExecutionErrorView,
        >(None),
{
}

/// Law: under the active fork a missing root is a caller contract violation,
/// at genesis and elsewhere alike.
pub proof fn lemma_beacon_root_missing<Halt>(
    number: u64,
    engine: Result<ResultAndStateView<Halt>, Seq<char>>,
)
    ensures
        beacon_root_outcome(true, number, None, engine) == Err::<
            Option<ResultAndStateView<Halt>>,
            BlockExecutionErrorView,
        >(
            BlockExecutionErrorView::Validation(
                BlockValidationErrorView::MissingParentBeaconBlockRoot,
            ),
        ),
{
}

/// Law: at genesis under the active fork, a zero root means "no call" and a
/// non-zero root is a genesis-invariant violation carrying exactly the
/// offending value; the supplied root is still validated even though no call
/// is dispatched.
pub proof fn lemma_beacon_root_genesis_policy<Halt>(
    root: B256,
    engine: Result<ResultAndStateView<Halt>, Seq<char>>,
)
    ensures
        root.spec_is_zero() ==> beacon_root_outcome(true, 0, Some(root), engine) == Ok::<
            Option<ResultAndStateView<Halt>>,
            BlockExecutionErrorView,
        >(None),
        !root.spec_is_zero() ==> beacon_root_outcome(true, 0, Some(root), engine) == Err::<
            Option<ResultAndStateView<Halt>>,
            BlockExecutionErrorView,
        >(
            BlockExecutionErrorView::Validation(
                BlockValidationErrorView::CancunGenesisParentBeaconBlockRootNotZero {
                    parent_beacon_block_root: root,
                },
            ),
        ),
{
}

/// Law: when the call is dispatched and the engine succeeds, the outcome and
/// state diff come back exactly as the engine returned them, unexamined and
/// unfiltered.
pub proof fn lemma_beacon_root_success_round_trip<Halt>(
    number: u64,
    root: B256,
    res: ResultAndStateView<Halt>,
)
    requires
        number != 0,
    ensures
        beacon_root_outcome(true, number, Some(root), Ok(res)) == Ok::<
            Option<ResultAndStateView<Halt>>,
            BlockExecutionErrorView,
        >(Some(res)),
{
}

/// Law: when the call is dispatched and the engine fails, the outcome is the
/// mapped taxonomy error, carrying the root and the failure's description
/// verbatim.
pub proof fn lemma_beacon_root_failure_mapped<Halt>(number: u64, root: B256, message: Seq<char>)
    requires
        number != 0,
    ensures
        beacon_root_outcome::<Halt>(true, number, Some(root), Err(message)) == Err::<
            Option<ResultAndStateView<Halt>>,
            BlockExecutionErrorView,
        >(
            BlockExecutionErrorView::Validation(
                BlockValidationErrorView::BeaconRootContractCall {
                    parent_beacon_block_root: root,
                    message,
                },
            ),
        ),
{
}

/// Law: the outcome is a pure function of hardfork activation, the height,
/// the root, and what the engine returns. Together with the procedure's guarantee that
/// dispatching leaves the engine's answers unchanged, invoking the procedure
/// twice with identical inputs against an unmodified backing state yields
/// identical outcomes.
pub proof fn lemma_beacon_root_idempotent<Halt>(
    cancun_active: bool,
    number: u64,
    parent_beacon_block_root: Option<B256>,
    engine_first: Result<ResultAndStateView<Halt>, Seq<char>>,
    engine_second: Result<ResultAndStateView<Halt>, Seq<char>>,
)
    requires
        engine_first == engine_second,
    ensures
        beacon_root_outcome(cancun_active, number, parent_beacon_block_root, engine_first)
            == beacon_root_outcome(
            cancun_active,
            number,
            parent_beacon_block_root,
            engine_second,
        ),
{
}

} // verus!
