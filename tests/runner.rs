use vm_backend::{
    call_kind_of_target, code_kind, create_address, create_target, host_call_request,
    host_call_result, host_create_result, host_rejected_result, is_wasm, BlockEnv, ByteCodeKind,
    CallKind, EVMCStatusCode, Error, ExecutionInfo, ExitError, ExitReason, ExitSucceed,
    ExtendExitReason, FixedGasPrice, H160, H256, HostRequest, Ledger, Runner, RunnerConfig,
    SsvmStart, StackSubstateMetadata, StatusCode, U256, Vicinity, VmStackState,
};

fn address(first: u8, last: u8) -> H160 {
    let mut bytes = [0u8; 20];
    bytes[0] = first;
    bytes[19] = last;
    H160 { bytes }
}

fn config(min: u64) -> RunnerConfig {
    RunnerConfig {
        min_gas_price: U256::from_u64(min),
        env: BlockEnv { chain_id: 1, block_number: 5, timestamp_ms: 6_000 },
    }
}

/// A ledger with a sender holding `balance` at nonce `nonce`.
fn funded(sender: H160, balance: u64, nonce: u64) -> Ledger {
    let mut ledger = Ledger::new(vec![]);
    assert!(ledger.deposit(sender, U256::from_u64(balance)));
    for _ in 0..nonce {
        ledger.inc_nonce(sender);
    }
    ledger
}

fn balance(ledger: &Ledger, a: H160) -> u64 {
    ledger.basic(a).balance.to_u64().unwrap()
}

#[test]
fn pre_processing_reserves_the_fee() {
    let s = address(0x10, 1);
    let mut ledger = funded(s, 1_000, 0);
    let r = Runner::pre_processing(&mut ledger, U256::from_u64(1), s, U256::from_u64(10), 100, Some(U256::from_u64(2)), None);
    assert_eq!(r.map(|(p, f)| (p, f)), Ok((U256::from_u64(2), U256::from_u64(200))));
    assert_eq!(balance(&ledger, s), 800);
}

#[test]
fn pre_processing_rejections_in_order() {
    let s = address(0x10, 2);
    let mut ledger = funded(s, 100, 1);
    assert_eq!(
        Runner::pre_processing(&mut ledger, U256::from_u64(5), s, U256::zero(), 10, Some(U256::from_u64(4)), None).err(),
        Some(Error::GasPriceTooLow)
    );
    let huge = U256 { limbs: [0, 0, 0, 1u64 << 63] };
    assert_eq!(
        Runner::pre_processing(&mut ledger, U256::zero(), s, U256::zero(), 4, Some(huge), None).err(),
        Some(Error::FeeOverflow)
    );
    let max = U256 { limbs: [u64::MAX; 4] };
    assert_eq!(
        Runner::pre_processing(&mut ledger, U256::zero(), s, max, 1, Some(U256::from_u64(1)), None).err(),
        Some(Error::PaymentOverflow)
    );
    assert_eq!(balance(&ledger, s), 100);
    // short of funds and a stale nonce: the balance is reported
    assert_eq!(
        Runner::pre_processing(&mut ledger, U256::zero(), s, U256::from_u64(95), 10, Some(U256::from_u64(1)), Some(U256::from_u64(7))).err(),
        Some(Error::BalanceLow)
    );
    assert_eq!(balance(&ledger, s), 100);
    // a stale nonce alone: the fee was reserved before the nonce check
    assert_eq!(
        Runner::pre_processing(&mut ledger, U256::zero(), s, U256::zero(), 10, Some(U256::from_u64(1)), Some(U256::from_u64(7))).err(),
        Some(Error::InvalidNonce)
    );
    assert_eq!(balance(&ledger, s), 90);
    assert!(Runner::pre_processing(&mut ledger, U256::zero(), s, U256::zero(), 10, None, Some(U256::from_u64(1))).is_ok());
    assert_eq!(balance(&ledger, s), 90);
}

#[test]
fn halt_call_succeeds_without_charge() {
    let s = address(0x10, 1);
    let ledger = funded(s, 1_000_000, 1);
    let session = match Runner::begin_evm(ledger, &config(0), s, U256::zero(), 1_000_000, Some(U256::zero()), None) {
        Ok(session) => session,
        Err(_) => panic!("rejected"),
    };
    let (info, ledger) = Runner::finish_evm(session, ExitReason::Succeed(ExitSucceed::Stopped), 0, Vec::<u8>::new());
    assert_eq!(info.exit_reason, ExtendExitReason::ExitReason(ExitReason::Succeed(ExitSucceed::Stopped)));
    assert_eq!(info.used_gas, U256::zero());
    assert!(info.logs.is_empty());
    assert_eq!(balance(&ledger, s), 1_000_000);
    assert!(ledger.events().is_empty());
}

#[test]
fn invalid_instruction_charges_all_gas() {
    let s = address(0x10, 1);
    let ledger = funded(s, 1_000_000, 1);
    let session = match Runner::begin_evm(ledger, &config(0), s, U256::zero(), 1_000_000, Some(U256::zero()), None) {
        Ok(session) => session,
        Err(_) => panic!("rejected"),
    };
    let reason = ExitReason::Error(ExitError::DesignatedInvalid);
    let (info, ledger) = Runner::finish_evm(session, reason, 1_000_000, Vec::<u8>::new());
    assert_eq!(info.exit_reason, ExtendExitReason::ExitReason(reason));
    assert_eq!(info.used_gas, U256::from_u64(1_000_000));
    assert!(info.logs.is_empty());
    assert_eq!(balance(&ledger, s), 1_000_000);
    assert_eq!(ledger.basic(s).nonce, U256::from_u64(1));
}

#[test]
fn fee_charged_for_used_gas_only() {
    let s = address(0x10, 1);
    let ledger = funded(s, 1_000_000, 0);
    let session = match Runner::begin_evm(ledger, &config(1), s, U256::zero(), 100, Some(U256::from_u64(2)), None) {
        Ok(session) => session,
        Err(_) => panic!("rejected"),
    };
    assert_eq!(balance(session.state.ledger(), s), 999_800);
    let (_, ledger) = Runner::finish_evm(session, ExitReason::Succeed(ExitSucceed::Returned), 30, ());
    // withdrawn 200, refunded 140: 60 paid, which is 2 * 30
    assert_eq!(balance(&ledger, s), 999_940);
}

#[test]
fn rejected_transaction_hands_back_the_ledger() {
    let s = address(0x10, 1);
    let ledger = funded(s, 10, 0);
    match Runner::begin_evm(ledger, &config(0), s, U256::zero(), 100, Some(U256::from_u64(1)), None) {
        Ok(_) => panic!("accepted"),
        Err(rejection) => {
            assert_eq!(rejection.error, Error::BalanceLow);
            assert_eq!(balance(&rejection.ledger, s), 10);
        },
    }
}

#[test]
fn settlement_flushes_deletions_and_logs() {
    let s = address(0x10, 1);
    let doomed = address(0x20, 9);
    let mut ledger = funded(s, 1_000, 0);
    ledger.set_code(doomed, vec![1, 2, 3]);
    let vicinity = Vicinity { gas_price: U256::from_u64(1), origin: s };
    let mut state = VmStackState::new(vicinity, StackSubstateMetadata::new(100), None, ledger, config(0).env);
    state.set_storage(doomed, H256 { bytes: [1u8; 32] }, H256 { bytes: [2u8; 32] });
    state.set_deleted(doomed);
    state.log(s, vec![], vec![4]);
    Runner::post_processing(&mut state, s, U256::from_u64(100), U256::from_u64(40));
    assert_eq!(state.get_balance(s), U256::from_u64(1_060));
    assert!(state.code(doomed).is_empty());
    assert_eq!(state.storage(doomed, H256 { bytes: [1u8; 32] }), H256::zero());
    let ledger = state.into_ledger();
    assert_eq!(ledger.events().len(), 1);
    assert_eq!(ledger.events()[0].data, vec![4]);
}

#[test]
fn secondary_precompile_settles_at_once() {
    let s = address(0x10, 1);
    let target = address(0, 2);
    let ledger = funded(s, 1_000, 3);
    match Runner::begin_ssvm(ledger, &config(0), s, target, U256::zero(), &vec![], 500, Some(U256::from_u64(1)), None, CallKind::EVMC_CALL) {
        Ok(SsvmStart::Precompiled((output, reason, used, logs), ledger)) => {
            assert_eq!(output[0], 0xe3);
            assert_eq!(output.len(), 32);
            assert_eq!(reason, ExtendExitReason::EVMCStatusCode(EVMCStatusCode::EvmcSuccess));
            assert_eq!(used, U256::from_u64(500));
            assert!(logs.is_empty());
            assert_eq!(balance(&ledger, s), 500);
            assert_eq!(ledger.basic(s).nonce, U256::from_u64(4));
        },
        _ => panic!("not settled as a precompile"),
    }
}

#[test]
fn secondary_revert_rolls_back_but_keeps_logs() {
    let s = address(0x10, 1);
    let target = address(0x30, 1);
    let mut ledger = funded(s, 1_000, 0);
    ledger.set_code(target, vec![0x00, 0x61, 0x73, 0x6d, 1]);
    let mut session = match Runner::begin_ssvm(ledger, &config(0), s, target, U256::zero(), &vec![7], 100, Some(U256::from_u64(2)), None, CallKind::EVMC_CALL) {
        Ok(SsvmStart::Run(session)) => session,
        _ => panic!("not run"),
    };
    assert_eq!(session.code, vec![0x00, 0x61, 0x73, 0x6d, 1]);
    assert_eq!(session.state.get_tx_context().unwrap().block_number, 5);
    session.state.set_storage(target, H256 { bytes: [1u8; 32] }, H256 { bytes: [9u8; 32] });
    session.state.emit_log(target, vec![], vec![1]);
    let ((output, reason, used, logs), ledger) = Runner::finish_ssvm(session, vec![0xaa], 60, StatusCode::EVMC_REVERT);
    assert_eq!(output, vec![0xaa]);
    assert_eq!(reason, ExtendExitReason::EVMCStatusCode(EVMCStatusCode::EvmcRevert));
    assert_eq!(used, U256::from_u64(40));
    assert_eq!(logs.len(), 1);
    assert_eq!(ledger.storage(target, H256 { bytes: [1u8; 32] }), H256::zero());
    // 200 reserved, 80 charged
    assert_eq!(balance(&ledger, s), 920);
    assert_eq!(ledger.events().len(), 1);
}

#[test]
fn secondary_create_installs_output_on_success() {
    let s = address(0x10, 1);
    let ledger = funded(s, 1_000, 0);
    let target = create_target(&ledger, s, None);
    let init = vec![0x00, 0x61, 0x73, 0x6d];
    let session = match Runner::begin_ssvm(ledger, &config(0), s, target, U256::zero(), &init, 100, None, None, CallKind::EVMC_CREATE) {
        Ok(SsvmStart::Run(session)) => session,
        _ => panic!("not run"),
    };
    assert_eq!(session.code, init);
    let (_, ledger) = Runner::finish_ssvm(session, vec![0xde, 0xad], 100, StatusCode::EVMC_SUCCESS);
    assert_eq!(ledger.code(target), vec![0xde, 0xad]);
    let failed = funded(s, 1_000, 0);
    let session = match Runner::begin_ssvm(failed, &config(0), s, target, U256::zero(), &init, 100, None, None, CallKind::EVMC_CREATE) {
        Ok(SsvmStart::Run(session)) => session,
        _ => panic!("not run"),
    };
    let ((_, reason, used, _), ledger) = Runner::finish_ssvm(session, vec![0xde, 0xad], -5, StatusCode::EVMC_OUT_OF_GAS);
    assert_eq!(reason, ExtendExitReason::EVMCStatusCode(EVMCStatusCode::EvmcOutOfGas));
    assert_eq!(used, U256::from_u64(100));
    assert!(ledger.code(target).is_empty());
}

#[test]
fn code_kind_by_header() {
    assert!(is_wasm(&vec![0x00, 0x61, 0x73, 0x6d]));
    assert!(is_wasm(&vec![0x00, 0x61, 0x73, 0x6d, 0x01]));
    assert!(!is_wasm(&vec![0x00, 0x61, 0x73]));
    assert!(!is_wasm(&vec![]));
    assert!(!is_wasm(&vec![0x01, 0x61, 0x73, 0x6d]));
    assert_eq!(code_kind(&vec![0x00]), ByteCodeKind::EVM);
    let t = address(0x30, 2);
    let mut ledger = Ledger::new(vec![]);
    assert_eq!(call_kind_of_target(&ledger, t), ByteCodeKind::EVM);
    ledger.set_code(t, vec![0x00, 0x61, 0x73, 0x6d]);
    assert_eq!(call_kind_of_target(&ledger, t), ByteCodeKind::EWASM);
}

#[test]
fn create_target_uses_given_or_current_nonce() {
    let s = address(0x10, 1);
    let ledger = funded(s, 0, 2);
    assert_eq!(create_target(&ledger, s, None), create_address(s, U256::from_u64(2)));
    assert_eq!(create_target(&ledger, s, Some(U256::from_u64(5))), create_address(s, U256::from_u64(5)));
}

#[test]
fn host_requests_and_results() {
    let sender = address(0x10, 1);
    let dest = address(0x30, 3);
    let ledger = funded(sender, 0, 4);
    let vicinity = Vicinity { gas_price: U256::zero(), origin: sender };
    let mut state = VmStackState::new(vicinity, StackSubstateMetadata::new(100), None, ledger, config(0).env);
    match host_call_request(&mut state, CallKind::EVMC_CALL, dest, sender, U256::from_u64(3), &vec![9], 70, H256::zero()) {
        HostRequest::Call { source, target, input, value, gas_limit, nonce } => {
            assert_eq!((source, target, input, value, gas_limit, nonce), (sender, dest, vec![9], U256::from_u64(3), 70, U256::from_u64(4)));
        },
        _ => panic!("not a call"),
    }
    assert_eq!(state.basic(sender).nonce, U256::from_u64(5));
    match host_call_request(&mut state, CallKind::EVMC_CREATE2, dest, sender, U256::zero(), &vec![1], -3, H256 { bytes: [5u8; 32] }) {
        HostRequest::Create2 { salt, gas_limit, nonce, .. } => {
            assert_eq!((salt, gas_limit, nonce), (H256 { bytes: [5u8; 32] }, 0, U256::from_u64(5)));
        },
        _ => panic!("not a create2"),
    }
    assert!(matches!(
        host_call_request(&mut state, CallKind::EVMC_DELEGATECALL, dest, sender, U256::zero(), &vec![], 10, H256::zero()),
        HostRequest::Rejected
    ));
    let ok = Ok(ExecutionInfo {
        exit_reason: ExtendExitReason::ExitReason(ExitReason::Succeed(ExitSucceed::Returned)),
        value: vec![1u8, 2],
        used_gas: U256::from_u64(30),
        logs: vec![],
    });
    assert_eq!(host_call_result(&ok, 100), (vec![1, 2], 70, H160::zero(), StatusCode::EVMC_SUCCESS));
    assert_eq!(host_call_result(&Err(Error::InvalidNonce), 100), (vec![], 100, H160::zero(), StatusCode::EVMC_FAILURE));
    let created = Ok(ExecutionInfo {
        exit_reason: ExtendExitReason::EVMCStatusCode(EVMCStatusCode::EvmcRevert),
        value: dest,
        used_gas: U256::from_u64(500),
        logs: vec![],
    });
    assert_eq!(host_create_result(&created, 100), (vec![], 0, dest, StatusCode::EVMC_REVERT));
    assert_eq!(host_rejected_result(42), (vec![], 42, H160::zero(), StatusCode::EVMC_REJECTED));
}

#[test]
fn fixed_gas_price_is_zero() {
    assert_eq!(FixedGasPrice::min_gas_price(), U256::zero());
}

#[test]
fn used_gas_from_reported_gas_left() {
    assert_eq!(vm_backend::used_gas_from_left(100, 40), 60);
    assert_eq!(vm_backend::used_gas_from_left(100, -1), 100);
    assert_eq!(vm_backend::used_gas_from_left(100, 150), 0);
    assert_eq!(vm_backend::used_gas_from_left(100, 100), 0);
}

#[test]
fn frame_closed_by_status() {
    let s = address(0x10, 1);
    let t = address(0x30, 7);
    let vicinity = Vicinity { gas_price: U256::zero(), origin: s };
    let mut state =
        VmStackState::new(vicinity, StackSubstateMetadata::new(100), None, Ledger::new(vec![]), config(0).env);
    state.enter(50, false);
    state.emit_log(t, vec![], vec![1]);
    Runner::exit_by_status(&mut state, CallKind::EVMC_CREATE, t, &vec![0xab], StatusCode::EVMC_SUCCESS);
    assert_eq!(state.code(t), vec![0xab]);
    assert_eq!(state.current_logs().len(), 1);
    state.enter(50, false);
    state.set_code(t, vec![0xcd]);
    state.emit_log(t, vec![], vec![2]);
    Runner::exit_by_status(&mut state, CallKind::EVMC_CALL, t, &vec![], StatusCode::EVMC_REVERT);
    assert_eq!(state.code(t), vec![0xab]);
    assert_eq!(state.current_logs().len(), 2);
    assert_eq!(state.metadata().depth, None);
}
