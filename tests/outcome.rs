use vm_backend::{
    reason_to_status, EVMCStatusCode, ExitError, ExitFatal, ExitReason, ExitRevert, ExitSucceed,
    ExtendExitReason, StatusCode,
};

const ALL: [EVMCStatusCode; 20] = [
    EVMCStatusCode::EvmcSuccess,
    EVMCStatusCode::EvmcFailure,
    EVMCStatusCode::EvmcRevert,
    EVMCStatusCode::EvmcOutOfGas,
    EVMCStatusCode::EvmcInvalidInstruction,
    EVMCStatusCode::EvmcUndefinedInstruction,
    EVMCStatusCode::EvmcStackOverflow,
    EVMCStatusCode::EvmcStackUnderflow,
    EVMCStatusCode::EvmcBadJumpDestination,
    EVMCStatusCode::EvmcInvalidMemoryAccess,
    EVMCStatusCode::EvmcCallDepthExceeded,
    EVMCStatusCode::EvmcStaticModeViolation,
    EVMCStatusCode::EvmcPrecompileFailure,
    EVMCStatusCode::EvmcContractValidationFailure,
    EVMCStatusCode::EvmcArgumentOutOfRange,
    EVMCStatusCode::EvmcWasmUnreachableInstruction,
    EVMCStatusCode::EvmcWasmTrap,
    EVMCStatusCode::EvmcInternalError,
    EVMCStatusCode::EvmcRejected,
    EVMCStatusCode::EvmcOutOfMemory,
];

#[test]
fn status_codes_round_trip() {
    for code in ALL.iter() {
        let status = StatusCode::from(*code);
        assert_eq!(EVMCStatusCode::from(status), *code);
    }
    assert_eq!(StatusCode::from(EVMCStatusCode::EvmcStackOverflow), StatusCode::EVMC_STACK_OVERFLOW);
    assert_eq!(EVMCStatusCode::from(StatusCode::EVMC_STACK_OVERFLOW), EVMCStatusCode::EvmcStackOverflow);
}

#[test]
fn exit_reason_from_status_codes() {
    let of = |c| ExitReason::from(ExtendExitReason::EVMCStatusCode(c));
    assert_eq!(of(EVMCStatusCode::EvmcSuccess), ExitReason::Succeed(ExitSucceed::Returned));
    assert_eq!(of(EVMCStatusCode::EvmcFailure), ExitReason::Fatal(ExitFatal::Other("Evmc Failure")));
    assert_eq!(of(EVMCStatusCode::EvmcRevert), ExitReason::Revert(ExitRevert::Reverted));
    assert_eq!(of(EVMCStatusCode::EvmcInvalidInstruction), ExitReason::Error(ExitError::DesignatedInvalid));
    assert_eq!(of(EVMCStatusCode::EvmcUndefinedInstruction), ExitReason::Fatal(ExitFatal::NotSupported));
    assert_eq!(of(EVMCStatusCode::EvmcWasmTrap), ExitReason::Fatal(ExitFatal::UnhandledInterrupt));
    assert_eq!(
        of(EVMCStatusCode::EvmcRejected),
        ExitReason::Error(ExitError::Other("Evmc Rejected"))
    );
    let native = ExitReason::Error(ExitError::OutOfGas);
    assert_eq!(ExitReason::from(ExtendExitReason::ExitReason(native)), native);
}

#[test]
fn native_reasons_as_status_codes() {
    assert_eq!(reason_to_status(&ExitReason::Succeed(ExitSucceed::Stopped)), StatusCode::EVMC_SUCCESS);
    assert_eq!(reason_to_status(&ExitReason::Revert(ExitRevert::Reverted)), StatusCode::EVMC_REVERT);
    assert_eq!(
        reason_to_status(&ExitReason::Error(ExitError::DesignatedInvalid)),
        StatusCode::EVMC_INVALID_INSTRUCTION
    );
    assert_eq!(reason_to_status(&ExitReason::Error(ExitError::CallTooDeep)), StatusCode::EVMC_CALL_DEPTH_EXCEEDED);
    assert_eq!(reason_to_status(&ExitReason::Error(ExitError::OutOfFund)), StatusCode::EVMC_FAILURE);
    assert_eq!(
        reason_to_status(&ExitReason::Error(ExitError::CreateContractLimit)),
        StatusCode::EVMC_CONTRACT_VALIDATION_FAILURE
    );
    assert_eq!(reason_to_status(&ExitReason::Error(ExitError::Other("x"))), StatusCode::EVMC_FAILURE);
    assert_eq!(reason_to_status(&ExitReason::Fatal(ExitFatal::NotSupported)), StatusCode::EVMC_UNDEFINED_INSTRUCTION);
    assert_eq!(reason_to_status(&ExitReason::Fatal(ExitFatal::UnhandledInterrupt)), StatusCode::EVMC_WASM_TRAP);
    assert_eq!(
        reason_to_status(&ExitReason::Fatal(ExitFatal::CallErrorAsFatal(ExitError::OutOfGas))),
        StatusCode::EVMC_FAILURE
    );
}
