use system_calls::eip2935::transact_blockhashes_contract_call;
use system_calls::eip4788::transact_beacon_root_contract_call;
use system_calls::errors::{BlockExecutionError, BlockValidationError};
use system_calls::evm::{StubEvm, StubHalt};
use system_calls::hardforks::ForkTimestamps;
use system_calls::types::{
    AccountChange, Address, B256, BlockContext, ExecutionResult, Log, ResultAndState,
    StorageChange, SuccessReason,
};

const CANCUN_TIME: u64 = 1_000;
const PRAGUE_TIME: u64 = 2_000;

fn cfg() -> ForkTimestamps {
    ForkTimestamps { cancun_time: Some(CANCUN_TIME), prague_time: Some(PRAGUE_TIME) }
}

fn system_address_bytes() -> [u8; 20] {
    let mut b = [0xffu8; 20];
    b[19] = 0xfe;
    b
}

fn history_storage_address_bytes() -> [u8; 20] {
    [
        0x00, 0x00, 0xf9, 0x08, 0x27, 0xf1, 0xc5, 0x3a, 0x10, 0xcb, 0x7a, 0x02, 0x33, 0x5b,
        0x17, 0x53, 0x20, 0x00, 0x29, 0x35,
    ]
}

fn beacon_roots_address_bytes() -> [u8; 20] {
    [
        0x00, 0x0f, 0x3d, 0xf6, 0xd7, 0x32, 0x80, 0x7e, 0xf1, 0x31, 0x9f, 0xb7, 0xb8, 0xbb,
        0x85, 0x22, 0xd0, 0xbe, 0xac, 0x02,
    ]
}

/// A success outcome with two touched accounts, one log, and output bytes.
fn success_response() -> Result<ResultAndState<StubHalt>, String> {
    Ok(ResultAndState {
        result: ExecutionResult::Success {
            reason: SuccessReason::Stop,
            gas_used: 23_716,
            gas_refunded: 0,
            logs: vec![Log {
                address: Address { bytes: [0x01; 20] },
                topics: vec![B256 { bytes: [0x02; 32] }],
                data: vec![1, 2, 3],
            }],
            output: vec![0xde, 0xad],
        },
        state: vec![
            AccountChange {
                address: Address { bytes: [0x0a; 20] },
                nonce: 1,
                balance: B256 { bytes: [0x00; 32] },
                storage: vec![StorageChange {
                    slot: B256 { bytes: [0x03; 32] },
                    value: B256 { bytes: [0x04; 32] },
                }],
            },
            AccountChange {
                address: Address { bytes: [0x0b; 20] },
                nonce: 7,
                balance: B256 { bytes: [0x05; 32] },
                storage: vec![],
            },
        ],
    })
}

fn stub(timestamp: u64, number: u64, response: Result<ResultAndState<StubHalt>, String>) -> StubEvm {
    StubEvm { block: BlockContext { timestamp, number }, response, recorded: Vec::new() }
}

#[test]
fn blockhashes_inactive_fork_is_no_call() {
    let mut evm = stub(PRAGUE_TIME - 1, 5, success_response());
    let r = transact_blockhashes_contract_call(&cfg(), B256 { bytes: [0x11; 32] }, &mut evm);
    assert_eq!(r, Ok(None));
    assert_eq!(evm.recorded.len(), 0);
}

#[test]
fn beacon_root_inactive_fork_is_no_call_without_inspecting_root() {
    // Even a missing root, and even a non-zero root at genesis, are accepted
    // while the fork is inactive: the value is not inspected at all.
    let mut evm = stub(CANCUN_TIME - 1, 5, success_response());
    let r = transact_beacon_root_contract_call(&cfg(), None, &mut evm);
    assert_eq!(r, Ok(None));
    assert_eq!(evm.recorded.len(), 0);

    let mut evm = stub(CANCUN_TIME - 1, 0, success_response());
    let r = transact_beacon_root_contract_call(&cfg(), Some(B256 { bytes: [0xaa; 32] }), &mut evm);
    assert_eq!(r, Ok(None));
    assert_eq!(evm.recorded.len(), 0);
}

#[test]
fn forks_without_activation_time_never_dispatch() {
    let never = ForkTimestamps { cancun_time: None, prague_time: None };
    let mut evm = stub(u64::MAX, 5, success_response());
    let r = transact_blockhashes_contract_call(&never, B256 { bytes: [0x11; 32] }, &mut evm);
    assert_eq!(r, Ok(None));
    let r = transact_beacon_root_contract_call(&never, Some(B256 { bytes: [0xaa; 32] }), &mut evm);
    assert_eq!(r, Ok(None));
    assert_eq!(evm.recorded.len(), 0);
}

#[test]
fn activation_boundary_timestamp_is_active() {
    // A fork is active at exactly its activation timestamp.
    let mut evm = stub(PRAGUE_TIME, 5, success_response());
    let r = transact_blockhashes_contract_call(&cfg(), B256 { bytes: [0x11; 32] }, &mut evm);
    assert!(matches!(r, Ok(Some(_))));
    assert_eq!(evm.recorded.len(), 1);
}

#[test]
fn blockhashes_genesis_is_no_call_even_when_active() {
    let mut evm = stub(PRAGUE_TIME + 1, 0, success_response());
    let r = transact_blockhashes_contract_call(&cfg(), B256 { bytes: [0x11; 32] }, &mut evm);
    assert_eq!(r, Ok(None));
    assert_eq!(evm.recorded.len(), 0);
}

#[test]
fn beacon_root_genesis_zero_root_is_no_call() {
    let mut evm = stub(CANCUN_TIME + 1, 0, success_response());
    let r = transact_beacon_root_contract_call(&cfg(), Some(B256::zero()), &mut evm);
    assert_eq!(r, Ok(None));
    assert_eq!(evm.recorded.len(), 0);
}

#[test]
fn beacon_root_genesis_nonzero_root_is_rejected_with_that_value() {
    let root = B256 { bytes: [0xaa; 32] };
    let mut evm = stub(CANCUN_TIME + 1, 0, success_response());
    let r = transact_beacon_root_contract_call(&cfg(), Some(root), &mut evm);
    assert_eq!(
        r,
        Err(BlockExecutionError::Validation(
            BlockValidationError::CancunGenesisParentBeaconBlockRootNotZero {
                parent_beacon_block_root: root,
            }
        ))
    );
    assert_eq!(evm.recorded.len(), 0);
}

#[test]
fn beacon_root_missing_root_under_active_fork_is_rejected() {
    let mut evm = stub(CANCUN_TIME + 1, 5, success_response());
    let r = transact_beacon_root_contract_call(&cfg(), None, &mut evm);
    assert_eq!(
        r,
        Err(BlockExecutionError::Validation(
            BlockValidationError::MissingParentBeaconBlockRoot
        ))
    );
    assert_eq!(evm.recorded.len(), 0);
}

#[test]
fn beacon_root_dispatches_once_with_exact_arguments_and_round_trips() {
    let root = B256 { bytes: [0xaa; 32] };
    let mut evm = stub(CANCUN_TIME + 1, 1, success_response());
    let r = transact_beacon_root_contract_call(&cfg(), Some(root), &mut evm);

    assert_eq!(evm.recorded.len(), 1);
    assert_eq!(evm.recorded[0].sender.bytes, system_address_bytes());
    assert_eq!(evm.recorded[0].target.bytes, beacon_roots_address_bytes());
    assert_eq!(evm.recorded[0].input, root);

    // The outcome and the two-account diff come back exactly as the engine
    // returned them.
    assert_eq!(r, Ok(Some(success_response().unwrap())));
}

#[test]
fn blockhashes_dispatches_once_with_exact_arguments_and_round_trips() {
    let hash = B256 { bytes: [0x11; 32] };
    let mut evm = stub(PRAGUE_TIME + 1, 9, success_response());
    let r = transact_blockhashes_contract_call(&cfg(), hash, &mut evm);

    assert_eq!(evm.recorded.len(), 1);
    assert_eq!(evm.recorded[0].sender.bytes, system_address_bytes());
    assert_eq!(evm.recorded[0].target.bytes, history_storage_address_bytes());
    assert_eq!(evm.recorded[0].input, hash);

    assert_eq!(r, Ok(Some(success_response().unwrap())));
}

#[test]
fn dispatched_addresses_match_the_eip_constants_of_alloy() {
    // The recorded sender and targets must be byte-for-byte the addresses
    // alloy-eips defines for the two EIPs.
    let mut evm = stub(PRAGUE_TIME + 1, 1, success_response());
    let _ = transact_blockhashes_contract_call(&cfg(), B256 { bytes: [0x11; 32] }, &mut evm);
    let _ =
        transact_beacon_root_contract_call(&cfg(), Some(B256 { bytes: [0xaa; 32] }), &mut evm);

    assert_eq!(evm.recorded.len(), 2);
    assert_eq!(evm.recorded[0].sender.bytes, alloy_eips::eip4788::SYSTEM_ADDRESS.0 .0);
    assert_eq!(evm.recorded[0].target.bytes, alloy_eips::eip2935::HISTORY_STORAGE_ADDRESS.0 .0);
    assert_eq!(evm.recorded[1].sender.bytes, alloy_eips::eip4788::SYSTEM_ADDRESS.0 .0);
    assert_eq!(evm.recorded[1].target.bytes, alloy_eips::eip4788::BEACON_ROOTS_ADDRESS.0 .0);
}

#[test]
fn revert_and_halt_outcomes_are_passed_through_not_rejected() {
    let revert: Result<ResultAndState<StubHalt>, String> = Ok(ResultAndState {
        result: ExecutionResult::Revert { gas_used: 100, output: vec![0x08] },
        state: vec![],
    });
    let mut evm = stub(CANCUN_TIME + 1, 1, revert.clone());
    let r = transact_beacon_root_contract_call(&cfg(), Some(B256 { bytes: [0xaa; 32] }), &mut evm);
    assert_eq!(r, Ok(Some(revert.unwrap())));

    let halt: Result<ResultAndState<StubHalt>, String> = Ok(ResultAndState {
        result: ExecutionResult::Halt { reason: StubHalt::OutOfGas, gas_used: 100 },
        state: vec![],
    });
    let mut evm = stub(PRAGUE_TIME + 1, 1, halt.clone());
    let r = transact_blockhashes_contract_call(&cfg(), B256 { bytes: [0x11; 32] }, &mut evm);
    assert_eq!(r, Ok(Some(halt.unwrap())));
}

#[test]
fn blockhashes_engine_failure_maps_to_taxonomy_error_with_message_verbatim() {
    let mut evm = stub(PRAGUE_TIME + 1, 4, Err(String::from("engine unavailable")));
    let r = transact_blockhashes_contract_call(&cfg(), B256 { bytes: [0x11; 32] }, &mut evm);
    assert_eq!(evm.recorded.len(), 1);
    assert_eq!(
        r,
        Err(BlockExecutionError::Validation(BlockValidationError::BlockHashContractCall {
            message: String::from("engine unavailable"),
        }))
    );
}

#[test]
fn beacon_root_engine_failure_maps_to_taxonomy_error_with_root_and_message() {
    let root = B256 { bytes: [0xaa; 32] };
    let mut evm = stub(CANCUN_TIME + 1, 4, Err(String::from("malformed environment")));
    let r = transact_beacon_root_contract_call(&cfg(), Some(root), &mut evm);
    assert_eq!(evm.recorded.len(), 1);
    assert_eq!(
        r,
        Err(BlockExecutionError::Validation(BlockValidationError::BeaconRootContractCall {
            parent_beacon_block_root: root,
            message: String::from("malformed environment"),
        }))
    );
}

#[test]
fn repeated_invocation_against_unmodified_state_is_idempotent() {
    let root = B256 { bytes: [0xaa; 32] };
    let mut evm = stub(CANCUN_TIME + 1, 1, success_response());
    let first = transact_beacon_root_contract_call(&cfg(), Some(root), &mut evm);
    let second = transact_beacon_root_contract_call(&cfg(), Some(root), &mut evm);
    assert_eq!(first, second);
    assert_eq!(evm.recorded.len(), 2);
    assert_eq!(evm.recorded[0], evm.recorded[1]);

    let hash = B256 { bytes: [0x11; 32] };
    let mut evm = stub(PRAGUE_TIME + 1, 1, Err(String::from("down")));
    let first = transact_blockhashes_contract_call(&cfg(), hash, &mut evm);
    let second = transact_blockhashes_contract_call(&cfg(), hash, &mut evm);
    assert_eq!(first, second);
    assert_eq!(evm.recorded.len(), 2);
    assert_eq!(evm.recorded[0], evm.recorded[1]);
}

#[test]
fn is_zero_reads_every_byte() {
    assert!(B256::zero().is_zero());
    assert!(B256 { bytes: [0x00; 32] }.is_zero());
    let mut almost = [0x00u8; 32];
    almost[31] = 0x01;
    assert!(!B256 { bytes: almost }.is_zero());
    let mut first = [0x00u8; 32];
    first[0] = 0x80;
    assert!(!B256 { bytes: first }.is_zero());
}
