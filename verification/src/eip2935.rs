//! The blockhash-history system call (EIP-2935): before a block's own
//! transactions run, and once the Prague hardfork is active, the hash of the
//! parent block is pushed into the history contract by a protocol-mandated
//! system call.

use vstd::prelude::*;
use crate::constants::{
    history_storage_address, spec_history_storage_address, spec_system_address, system_address,
};
use crate::errors::{
    BlockExecutionError, BlockExecutionErrorView, BlockValidationError, BlockValidationErrorView,
};
use crate::evm::{call_outcome_view, Evm};
use crate::hardforks::EthereumHardforks;
use crate::types::{B256, ResultAndState, ResultAndStateView, SystemCall};

verus! {

/// The one call this site ever dispatches: the fixed system sender, the
/// history contract, and the 32-byte parent hash as the raw input payload.
pub open spec fn blockhashes_system_call(parent_block_hash: B256) -> SystemCall {
    SystemCall {
        sender: spec_system_address(),
        target: spec_history_storage_address(),
        input: parent_block_hash,
    }
}

/// Whether this call site dispatches at all: only when the hardfork is
/// active at the block's timestamp and the block is not the genesis block,
/// which has no parent to record.
pub open spec fn blockhashes_dispatches(prague_active: bool, number: u64) -> bool {
    prague_active && number != 0
}

/// What the blockhash-history call site returns, as a function of hardfork
/// activation, the block height, and what the engine returns for the dispatched call:
/// "no call" when gated off or at genesis; the engine's outcome handed
/// through unexamined on success; and the mapped taxonomy error, carrying the
/// engine failure's description verbatim, when the engine cannot execute the
/// call at all.
pub open spec fn blockhashes_outcome<Halt>(
    prague_active: bool,
    number: u64,
    engine: Result<ResultAndStateView<Halt>, Seq<char>>,
) -> Result<Option<ResultAndStateView<Halt>>, BlockExecutionErrorView> {
    if !blockhashes_dispatches(prague_active, number) {
        Ok(None)
    } else {
        match engine {
            Ok(res) => Ok(Some(res)),
            Err(message) => Err(
                BlockExecutionErrorView::Validation(
                    BlockValidationErrorView::BlockHashContractCall { message },
                ),
            ),
        }
    }
}

/// Applies the pre-block call to the EIP-2935 blockhashes contract.
///
/// If Prague is not active at the block's timestamp, or the block is the
/// genesis block, this is a no-op: no state changes are made and the engine
/// is not invoked. Otherwise the call is dispatched exactly once, with the
/// fixed system sender, the fixed history contract target, and the parent
/// block hash verbatim as input. The state changes are only transacted, never
/// committed.
pub fn transact_blockhashes_contract_call<S: EthereumHardforks, E: Evm>(
    chain_spec: &S,
    parent_block_hash: B256,
    evm: &mut E,
) -> (r: Result<Option<ResultAndState<E::HaltReason>>, BlockExecutionError>)
    ensures
        call_outcome_view(r) == blockhashes_outcome(
            chain_spec.prague_active(old(evm).block_view().timestamp),
            old(evm).block_view().number,
            old(evm).outcome_of(blockhashes_system_call(parent_block_hash)),
        ),
        blockhashes_dispatches(
            chain_spec.prague_active(old(evm).block_view().timestamp),
            old(evm).block_view().number,
        ) ==> final(evm).calls() == old(evm).calls().push(
            blockhashes_system_call(parent_block_hash),
        ),
        !blockhashes_dispatches(
            chain_spec.prague_active(old(evm).block_view().timestamp),
            old(evm).block_view().number,
        ) ==> *final(evm) == *old(evm),
        final(evm).block_view() == old(evm).block_view(),
        forall|c: SystemCall| #[trigger] final(evm).outcome_of(c) == old(evm).outcome_of(c),
{
    if !chain_spec.is_prague_active_at_timestamp(evm.block().timestamp) {
        return Ok(None);
    }

    // A genesis block has no parent to record, so no system transaction may
    // occur, as EIP-2935 mandates.
    if evm.block().number == 0 {
        return Ok(None);
    }

    let sender = system_address();
    let target = history_storage_address();
    match evm.transact_system_call(sender, target, parent_block_hash) {
        Ok(res) => Ok(Some(res)),
        Err(e) => Err(
            BlockValidationError::BlockHashContractCall { message: e }.into_execution_error(),
        ),
    }
}

/// Law: where the hardfork is inactive the outcome is "no call", whatever
/// the engine would have returned — the dispatcher is never consulted.
pub proof fn lemma_blockhashes_inactive_no_call<Halt>(
    number: u64,
    engine: Result<ResultAndStateView<Halt>, Seq<char>>,
)
    ensures
        blockhashes_outcome(false, number, engine) == Ok::<
            Option<ResultAndStateView<Halt>>,
            BlockExecutionErrorView,
        >(None),
{
}

/// Law: at the genesis block the outcome is "no call" even under an active
/// hardfork.
pub proof fn lemma_blockhashes_genesis_no_call<Halt>(
    prague_active: bool,
    engine: Result<ResultAndStateView<Halt>, Seq<char>>,
)
    ensures
        blockhashes_outcome(prague_active, 0, engine) == Ok::<
            Option<ResultAndStateView<Halt>>,
            BlockExecutionErrorView,
        >(None),
{
}

/// Law: when the call is dispatched and the engine succeeds, the outcome and
/// state diff come back exactly as the engine returned them, unexamined and
/// unfiltered.
pub proof fn lemma_blockhashes_success_round_trip<Halt>(
    number: u64,
    res: ResultAndStateView<Halt>,
)
    requires
        number != 0,
    ensures
        blockhashes_outcome(true, number, Ok(res)) == Ok::<
            Option<ResultAndStateView<Halt>>,
            BlockExecutionErrorView,
        >(Some(res)),
{
}

/// Law: when the call is dispatched and the engine fails, the outcome is the
/// mapped taxonomy error, with the failure's description embedded verbatim.
pub proof fn lemma_blockhashes_failure_mapped<Halt>(number: u64, message: Seq<char>)
    requires
        number != 0,
    ensures
        blockhashes_outcome::<Halt>(true, number, Err(message)) == Err::<
            Option<ResultAndStateView<Halt>>,
            BlockExecutionErrorView,
        >(
            BlockExecutionErrorView::Validation(
                BlockValidationErrorView::BlockHashContractCall { message },
            ),
        ),
{
}

/// Law: the outcome is a pure function of hardfork activation, the height,
/// and what the engine returns. Together with the procedure's guarantee that dispatching
/// leaves the engine's answers unchanged, invoking the procedure twice with
/// identical inputs against an unmodified backing state yields identical
/// outcomes.
pub proof fn lemma_blockhashes_idempotent<Halt>(
    prague_active: bool,
    number: u64,
    engine_first: Result<ResultAndStateView<Halt>, Seq<char>>,
    engine_second: Result<ResultAndStateView<Halt>, Seq<char>>,
)
    requires
        engine_first == engine_second,
    ensures
        blockhashes_outcome(prague_active, number, engine_first) == blockhashes_outcome(
            prague_active,
            number,
            engine_second,
        ),
{
}

} // verus!
