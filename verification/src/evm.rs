//! The execution-engine handle that dispatches system calls, and a recording
//! stub engine for exercising the call sites without a real engine.
//!
//! The engine executes a synthetic transaction against its current state
//! without committing results, so dispatching never changes what the engine
//! would answer: the contracts state this, and it is what makes repeated
//! invocation against an unmodified backing state idempotent.

use vstd::prelude::*;
use crate::errors::{BlockExecutionError, BlockExecutionErrorView};
use crate::types::{Address, B256, BlockContext, ResultAndState, ResultAndStateView, SystemCall};

verus! {

/// An execution-engine handle: a read accessor for the block environment and
/// one operation that executes a protocol-mandated system call.
///
/// The specification side models the engine by three functions: the block
/// environment, the ordered log of every dispatched call, and what the
/// engine, in its current state, returns for a given call — an outcome and
/// state diff, or the description of an engine-level failure.
pub trait Evm: Sized {
    /// The engine-specific halt-reason type carried inside outcomes.
    type HaltReason;

    /// The block environment the engine executes in.
    spec fn block_view(&self) -> BlockContext;

    /// Every system call dispatched so far, in order.
    spec fn calls(&self) -> Seq<SystemCall>;

    /// What the engine, in its current state, returns for `call`: the
    /// outcome and state diff, or an engine failure's description.
    spec fn outcome_of(&self, call: SystemCall) -> Result<
        ResultAndStateView<Self::HaltReason>,
        Seq<char>,
    >;

    /// Reads the block environment.
    fn block(&self) -> (b: BlockContext)
        ensures
            b == self.block_view(),
    ;

    /// Executes a synthetic transaction not belonging to the block's
    /// transaction list, against the current state, without committing
    /// results: the call is recorded, the block environment and the engine's
    /// answers are unchanged, and the returned value is exactly what the
    /// engine answers for this call.
    fn transact_system_call(&mut self, sender: Address, target: Address, input: B256) -> (r:
        Result<ResultAndState<Self::HaltReason>, String>)
        ensures
            final(self).block_view() == old(self).block_view(),
            final(self).calls() == old(self).calls().push(
                SystemCall { sender, target, input },
            ),
            forall|c: SystemCall| #[trigger]
                final(self).outcome_of(c) == old(self).outcome_of(c),
            (match r {
                Ok(res) => old(self).outcome_of(SystemCall { sender, target, input })
                    == Ok::<ResultAndStateView<Self::HaltReason>, Seq<char>>(res@),
                Err(m) => old(self).outcome_of(SystemCall { sender, target, input })
                    == Err::<ResultAndStateView<Self::HaltReason>, Seq<char>>(m@),
            }),
    ;
}

/// Maps a call site's result to its model: outcome and error become their
/// views, "no call" stays "no call".
pub open spec fn call_outcome_view<Halt>(
    r: Result<Option<ResultAndState<Halt>>, BlockExecutionError>,
) -> Result<Option<ResultAndStateView<Halt>>, BlockExecutionErrorView> {
    match r {
        Ok(Some(res)) => Ok(Some(res@)),
        Ok(None) => Ok(None),
        Err(e) => Err(e@),
    }
}

/// The halt-reason type of the stub engine.
#[derive(Clone, Copy, PartialEq, Eq, Debug)]
pub enum StubHalt {
    OutOfGas,
}

/// A stub engine: it answers every dispatch with one configured response and
/// records each dispatched call, so a caller can check how often and with
/// what arguments the dispatcher was invoked.
pub struct StubEvm {
    /// The block environment the stub reports.
    pub block: BlockContext,
    /// The response handed back, unchanged, on every dispatch.
    pub response: Result<ResultAndState<StubHalt>, String>,
    /// Every dispatched call, in order.
    pub recorded: Vec<SystemCall>,
}

impl Evm for StubEvm {
    type HaltReason = StubHalt;

    open spec fn block_view(&self) -> BlockContext {
        self.block
    }

    open spec fn calls(&self) -> Seq<SystemCall> {
        self.recorded@
    }

    open spec fn outcome_of(&self, call: SystemCall) -> Result<
        ResultAndStateView<StubHalt>,
        Seq<char>,
    > {
        match self.response {
            Ok(res) => Ok(res@),
            Err(m) => Err(m@),
        }
    }

    fn block(&self) -> (b: BlockContext) {
        self.block
    }

    fn transact_system_call(&mut self, sender: Address, target: Address, input: B256) -> (r:
        Result<ResultAndState<StubHalt>, String>) {
        self.recorded.push(SystemCall { sender, target, input });
        match &self.response {
            Ok(res) => Ok(res.clone()),
            Err(m) => Err(m.clone()),
        }
    }
}

} // verus!
