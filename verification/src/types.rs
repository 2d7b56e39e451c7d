//! Plain data types shared by the two system-call sites, together with the
//! mathematical models (`View`/`DeepView`) that the contracts speak of.

use vstd::prelude::*;

verus! {

/// A 20-byte account address.
#[derive(Clone, Copy, PartialEq, Eq, Debug)]
pub struct Address {
    pub bytes: [u8; 20],
}

impl DeepView for Address {
    type V = Address;

    open spec fn deep_view(&self) -> Address {
        *self
    }
}

/// A 32-byte hash value (a block hash or a beacon block root).
#[derive(Clone, Copy, PartialEq, Eq, Debug)]
pub struct B256 {
    pub bytes: [u8; 32],
}

impl DeepView for B256 {
    type V = B256;

    open spec fn deep_view(&self) -> B256 {
        *self
    }
}

impl B256 {
    /// The all-zero 32-byte value, the only beacon root the protocol accepts
    /// at genesis.
    pub fn zero() -> (r: B256)
        ensures
            r.spec_is_zero(),
    {
        B256 { bytes: [0u8; 32] }
    }

    /// Whether every byte of the value is zero.
    pub open spec fn spec_is_zero(&self) -> bool {
        forall|i: int| 0 <= i < 32 ==> self.bytes[i] == 0u8
    }

    pub fn is_zero(&self) -> (r: bool)
        ensures
            r == self.spec_is_zero(),
    {
        let mut i: usize = 0;
        while i < 32
            invariant
                i <= 32,
                forall|j: int| 0 <= j < i ==> self.bytes[j] == 0u8,
            decreases 32 - i,
        {
            if self.bytes[i] != 0u8 {
                return false;
            }
            i = i + 1;
        }
        true
    }
}

/// The part of the block environment that the gating rules read: the
/// timestamp that decides hardfork activation and the height that decides
/// whether this is the genesis block.
#[derive(Clone, Copy, PartialEq, Eq, Debug)]
pub struct BlockContext {
    /// Seconds since epoch.
    pub timestamp: u64,
    /// Block height; zero is the genesis block.
    pub number: u64,
}

/// A record of one dispatched system call: the fixed system sender, the
/// target contract, and the 32-byte input payload, passed verbatim.
#[derive(Clone, Copy, PartialEq, Eq, Debug)]
pub struct SystemCall {
    pub sender: Address,
    pub target: Address,
    pub input: B256,
}

/// Why an execution completed normally.
#[derive(Clone, Copy, PartialEq, Eq, Debug)]
pub enum SuccessReason {
    Stop,
    Return,
    SelfDestruct,
}

/// One changed storage slot and its post-call value.
#[derive(Clone, Copy, PartialEq, Eq, Debug)]
pub struct StorageChange {
    pub slot: B256,
    pub value: B256,
}

impl DeepView for StorageChange {
    type V = StorageChange;

    open spec fn deep_view(&self) -> StorageChange {
        *self
    }
}

/// A log record emitted by the called contract.
#[derive(PartialEq, Eq, Debug)]
pub struct Log {
    pub address: Address,
    pub topics: Vec<B256>,
    pub data: Vec<u8>,
}

/// Model of a [`Log`]: the byte vectors become sequences.
#[verifier::ext_equal]
pub struct LogView {
    pub address: Address,
    pub topics: Seq<B256>,
    pub data: Seq<u8>,
}

impl View for Log {
    type V = LogView;

    open spec fn view(&self) -> LogView {
        LogView { address: self.address, topics: self.topics@, data: self.data@ }
    }
}

impl DeepView for Log {
    type V = LogView;

    open spec fn deep_view(&self) -> LogView {
        self.view()
    }
}

impl Clone for Log {
    /// A clone has the same model as the original.
    fn clone(&self) -> (r: Log)
        ensures
            r@ == self@,
    {
        let r = Log {
            address: self.address,
            topics: self.topics.clone(),
            data: self.data.clone(),
        };
        proof {
            assert(r.topics@ =~= self.topics@);
            assert(r.data@ =~= self.data@);
            assert(r@ =~= self@);
        }
        r
    }
}

/// How the engine's execution of a system call ended. `Halt` is the
/// engine-specific halt-reason type; this core carries it through unexamined.
#[derive(PartialEq, Eq, Debug)]
pub enum ExecutionResult<Halt> {
    /// The call completed normally.
    Success {
        reason: SuccessReason,
        gas_used: u64,
        gas_refunded: u64,
        logs: Vec<Log>,
        output: Vec<u8>,
    },
    /// The called contract reverted. Not an error of this core: the caller
    /// classifies it.
    Revert { gas_used: u64, output: Vec<u8> },
    /// The execution halted abnormally. Not an error of this core either.
    Halt { reason: Halt, gas_used: u64 },
}

/// Model of an [`ExecutionResult`].
#[verifier::ext_equal]
pub enum ExecutionResultView<Halt> {
    Success {
        reason: SuccessReason,
        gas_used: u64,
        gas_refunded: u64,
        logs: Seq<LogView>,
        output: Seq<u8>,
    },
    Revert { gas_used: u64, output: Seq<u8> },
    Halt { reason: Halt, gas_used: u64 },
}

impl<Halt> View for ExecutionResult<Halt> {
    type V = ExecutionResultView<Halt>;

    open spec fn view(&self) -> ExecutionResultView<Halt> {
        match self {
            ExecutionResult::Success { reason, gas_used, gas_refunded, logs, output } => {
                ExecutionResultView::Success {
                    reason: *reason,
                    gas_used: *gas_used,
                    gas_refunded: *gas_refunded,
                    logs: logs.deep_view(),
                    output: output@,
                }
            },
            ExecutionResult::Revert { gas_used, output } => {
                ExecutionResultView::Revert { gas_used: *gas_used, output: output@ }
            },
            ExecutionResult::Halt { reason, gas_used } => {
                ExecutionResultView::Halt { reason: *reason, gas_used: *gas_used }
            },
        }
    }
}

impl<Halt: Copy> Clone for ExecutionResult<Halt> {
    /// A clone has the same model as the original.
    fn clone(&self) -> (r: ExecutionResult<Halt>)
        ensures
            r@ == self@,
    {
        match self {
            ExecutionResult::Success { reason, gas_used, gas_refunded, logs, output } => {
                let r = ExecutionResult::Success {
                    reason: *reason,
                    gas_used: *gas_used,
                    gas_refunded: *gas_refunded,
                    logs: logs.clone(),
                    output: output.clone(),
                };
                proof {
                    assert(r@ =~= self@);
                }
                r
            },
            ExecutionResult::Revert { gas_used, output } => {
                let r = ExecutionResult::Revert { gas_used: *gas_used, output: output.clone() };
                proof {
                    assert(r@ =~= self@);
                }
                r
            },
            ExecutionResult::Halt { reason, gas_used } => {
                ExecutionResult::Halt { reason: *reason, gas_used: *gas_used }
            },
        }
    }
}

/// The post-call state of one touched account: the state diff maps each
/// touched address to such a record. This core never reads or commits it.
#[derive(PartialEq, Eq, Debug)]
pub struct AccountChange {
    pub address: Address,
    pub nonce: u64,
    /// The account balance as a 256-bit big-endian word.
    pub balance: B256,
    /// Changed storage slots.
    pub storage: Vec<StorageChange>,
}

/// Model of an [`AccountChange`].
#[verifier::ext_equal]
pub struct AccountChangeView {
    pub address: Address,
    pub nonce: u64,
    pub balance: B256,
    pub storage: Seq<StorageChange>,
}

impl View for AccountChange {
    type V = AccountChangeView;

    open spec fn view(&self) -> AccountChangeView {
        AccountChangeView {
            address: self.address,
            nonce: self.nonce,
            balance: self.balance,
            storage: self.storage@,
        }
    }
}

impl Clone for AccountChange {
    /// A clone has the same model as the original.
    fn clone(&self) -> (r: AccountChange)
        ensures
            r@ == self@,
    {
        let r = AccountChange {
            address: self.address,
            nonce: self.nonce,
            balance: self.balance,
            storage: self.storage.clone(),
        };
        proof {
            assert(r.storage@ =~= self.storage@);
            assert(r@ =~= self@);
        }
        r
    }
}

impl DeepView for AccountChange {
    type V = AccountChangeView;

    open spec fn deep_view(&self) -> AccountChangeView {
        self.view()
    }
}

/// What a successful dispatch hands back: the execution outcome and the
/// resulting state diff, returned to the caller unexamined and uncommitted.
#[derive(PartialEq, Eq, Debug)]
pub struct ResultAndState<Halt> {
    pub result: ExecutionResult<Halt>,
    /// The touched accounts and their post-call states.
    pub state: Vec<AccountChange>,
}

/// Model of a [`ResultAndState`].
#[verifier::ext_equal]
pub struct ResultAndStateView<Halt> {
    pub result: ExecutionResultView<Halt>,
    pub state: Seq<AccountChangeView>,
}

impl<Halt> View for ResultAndState<Halt> {
    type V = ResultAndStateView<Halt>;

    open spec fn view(&self) -> ResultAndStateView<Halt> {
        ResultAndStateView { result: self.result@, state: self.state.deep_view() }
    }
}

impl<Halt: Copy> Clone for ResultAndState<Halt> {
    /// A clone has the same model as the original.
    fn clone(&self) -> (r: ResultAndState<Halt>)
        ensures
            r@ == self@,
    {
        let r = ResultAndState { result: self.result.clone(), state: self.state.clone() };
        proof {
            assert(r.state.deep_view() =~= self.state.deep_view());
            assert(r@ =~= self@);
        }
        r
    }
}

} // verus!
