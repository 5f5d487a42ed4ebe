//! Outcomes of both virtual machines and the mappings between them.

use vstd::prelude::*;

use crate::types::{H160, H256, U256};

verus! {

/// How a native-interpreter call ended successfully.
#[derive(Clone, Copy, Debug, PartialEq, Eq)]
pub enum ExitSucceed {
    Stopped,
    Returned,
    Suicided,
}

/// A structured native-interpreter error: it unwinds the current call only.
#[derive(Clone, Copy, Debug, PartialEq, Eq)]
pub enum ExitError {
    StackUnderflow,
    StackOverflow,
    InvalidJump,
    InvalidRange,
    DesignatedInvalid,
    CallTooDeep,
    CreateCollision,
    CreateContractLimit,
    OutOfOffset,
    OutOfGas,
    OutOfFund,
    PCUnderflow,
    CreateEmpty,
    Other(&'static str),
}

/// An explicit revert.
#[derive(Clone, Copy, Debug, PartialEq, Eq)]
pub enum ExitRevert {
    Reverted,
}

/// A native-interpreter failure after which execution cannot continue.
#[derive(Clone, Copy, Debug, PartialEq, Eq)]
pub enum ExitFatal {
    NotSupported,
    UnhandledInterrupt,
    CallErrorAsFatal(ExitError),
    Other(&'static str),
}

/// How a native-interpreter call ended.
#[derive(Clone, Copy, Debug, PartialEq, Eq)]
pub enum ExitReason {
    Succeed(ExitSucceed),
    Error(ExitError),
    Revert(ExitRevert),
    Fatal(ExitFatal),
}

/// Status codes of the secondary (linear-memory) virtual machine's host interface.
#[allow(non_camel_case_types)]
#[derive(Clone, Copy, Debug, PartialEq, Eq, Structural)]
pub enum StatusCode {
    EVMC_SUCCESS,
    EVMC_FAILURE,
    EVMC_REVERT,
    EVMC_OUT_OF_GAS,
    EVMC_INVALID_INSTRUCTION,
    EVMC_UNDEFINED_INSTRUCTION,
    EVMC_STACK_OVERFLOW,
    EVMC_STACK_UNDERFLOW,
    EVMC_BAD_JUMP_DESTINATION,
    EVMC_INVALID_MEMORY_ACCESS,
    EVMC_CALL_DEPTH_EXCEEDED,
    EVMC_STATIC_MODE_VIOLATION,
    EVMC_PRECOMPILE_FAILURE,
    EVMC_CONTRACT_VALIDATION_FAILURE,
    EVMC_ARGUMENT_OUT_OF_RANGE,
    EVMC_WASM_UNREACHABLE_INSTRUCTION,
    EVMC_WASM_TRAP,
    EVMC_INTERNAL_ERROR,
    EVMC_REJECTED,
    EVMC_OUT_OF_MEMORY,
}

/// The library's own copy of the secondary virtual machine's status codes.
#[derive(Clone, Copy, Debug, PartialEq, Eq, Structural)]
pub enum EVMCStatusCode {
    EvmcSuccess,
    EvmcFailure,
    EvmcRevert,
    EvmcOutOfGas,
    EvmcInvalidInstruction,
    EvmcUndefinedInstruction,
    EvmcStackOverflow,
    EvmcStackUnderflow,
    EvmcBadJumpDestination,
    EvmcInvalidMemoryAccess,
    EvmcCallDepthExceeded,
    EvmcStaticModeViolation,
    EvmcPrecompileFailure,
    EvmcContractValidationFailure,
    EvmcArgumentOutOfRange,
    EvmcWasmUnreachableInstruction,
    EvmcWasmTrap,
    EvmcInternalError,
    EvmcRejected,
    EvmcOutOfMemory,
}

/// The outcome of a call on either virtual machine.
#[derive(Clone, Copy, Debug, PartialEq, Eq)]
pub enum ExtendExitReason {
    ExitReason(ExitReason),
    EVMCStatusCode(EVMCStatusCode),
}

/// The status code that stands for a library status code.
pub open spec fn status_of_evmc(s: EVMCStatusCode) -> StatusCode {
    match s {
        EVMCStatusCode::EvmcSuccess => StatusCode::EVMC_SUCCESS,
        EVMCStatusCode::EvmcFailure => StatusCode::EVMC_FAILURE,
        EVMCStatusCode::EvmcRevert => StatusCode::EVMC_REVERT,
        EVMCStatusCode::EvmcOutOfGas => StatusCode::EVMC_OUT_OF_GAS,
        EVMCStatusCode::EvmcInvalidInstruction => StatusCode::EVMC_INVALID_INSTRUCTION,
        EVMCStatusCode::EvmcUndefinedInstruction => StatusCode::EVMC_UNDEFINED_INSTRUCTION,
        EVMCStatusCode::EvmcStackOverflow => StatusCode::EVMC_STACK_OVERFLOW,
        EVMCStatusCode::EvmcStackUnderflow => StatusCode::EVMC_STACK_UNDERFLOW,
        EVMCStatusCode::EvmcBadJumpDestination => StatusCode::EVMC_BAD_JUMP_DESTINATION,
        EVMCStatusCode::EvmcInvalidMemoryAccess => StatusCode::EVMC_INVALID_MEMORY_ACCESS,
        EVMCStatusCode::EvmcCallDepthExceeded => StatusCode::EVMC_CALL_DEPTH_EXCEEDED,
        EVMCStatusCode::EvmcStaticModeViolation => StatusCode::EVMC_STATIC_MODE_VIOLATION,
        EVMCStatusCode::EvmcPrecompileFailure => StatusCode::EVMC_PRECOMPILE_FAILURE,
        EVMCStatusCode::EvmcContractValidationFailure => StatusCode::EVMC_CONTRACT_VALIDATION_FAILURE,
        EVMCStatusCode::EvmcArgumentOutOfRange => StatusCode::EVMC_ARGUMENT_OUT_OF_RANGE,
        EVMCStatusCode::EvmcWasmUnreachableInstruction => StatusCode::EVMC_WASM_UNREACHABLE_INSTRUCTION,
        EVMCStatusCode::EvmcWasmTrap => StatusCode::EVMC_WASM_TRAP,
        EVMCStatusCode::EvmcInternalError => StatusCode::EVMC_INTERNAL_ERROR,
        EVMCStatusCode::EvmcRejected => StatusCode::EVMC_REJECTED,
        EVMCStatusCode::EvmcOutOfMemory => StatusCode::EVMC_OUT_OF_MEMORY,
    }
}

/// The library status code that stands for a status code.
pub open spec fn evmc_of_status(s: StatusCode) -> EVMCStatusCode {
    match s {
        StatusCode::EVMC_SUCCESS => EVMCStatusCode::EvmcSuccess,
        StatusCode::EVMC_FAILURE => EVMCStatusCode::EvmcFailure,
        StatusCode::EVMC_REVERT => EVMCStatusCode::EvmcRevert,
        StatusCode::EVMC_OUT_OF_GAS => EVMCStatusCode::EvmcOutOfGas,
        StatusCode::EVMC_INVALID_INSTRUCTION => EVMCStatusCode::EvmcInvalidInstruction,
        StatusCode::EVMC_UNDEFINED_INSTRUCTION => EVMCStatusCode::EvmcUndefinedInstruction,
        StatusCode::EVMC_STACK_OVERFLOW => EVMCStatusCode::EvmcStackOverflow,
        StatusCode::EVMC_STACK_UNDERFLOW => EVMCStatusCode::EvmcStackUnderflow,
        StatusCode::EVMC_BAD_JUMP_DESTINATION => EVMCStatusCode::EvmcBadJumpDestination,
        StatusCode::EVMC_INVALID_MEMORY_ACCESS => EVMCStatusCode::EvmcInvalidMemoryAccess,
        StatusCode::EVMC_CALL_DEPTH_EXCEEDED => EVMCStatusCode::EvmcCallDepthExceeded,
        StatusCode::EVMC_STATIC_MODE_VIOLATION => EVMCStatusCode::EvmcStaticModeViolation,
        StatusCode::EVMC_PRECOMPILE_FAILURE => EVMCStatusCode::EvmcPrecompileFailure,
        StatusCode::EVMC_CONTRACT_VALIDATION_FAILURE => EVMCStatusCode::EvmcContractValidationFailure,
        StatusCode::EVMC_ARGUMENT_OUT_OF_RANGE => EVMCStatusCode::EvmcArgumentOutOfRange,
        StatusCode::EVMC_WASM_UNREACHABLE_INSTRUCTION => EVMCStatusCode::EvmcWasmUnreachableInstruction,
        StatusCode::EVMC_WASM_TRAP => EVMCStatusCode::EvmcWasmTrap,
        StatusCode::EVMC_INTERNAL_ERROR => EVMCStatusCode::EvmcInternalError,
        StatusCode::EVMC_REJECTED => EVMCStatusCode::EvmcRejected,
        StatusCode::EVMC_OUT_OF_MEMORY => EVMCStatusCode::EvmcOutOfMemory,
    }
}

impl From<EVMCStatusCode> for StatusCode {
    fn from(s: EVMCStatusCode) -> (r: StatusCode) {
        match s {
            EVMCStatusCode::EvmcSuccess => StatusCode::EVMC_SUCCESS,
            EVMCStatusCode::EvmcFailure => StatusCode::EVMC_FAILURE,
            EVMCStatusCode::EvmcRevert => StatusCode::EVMC_REVERT,
            EVMCStatusCode::EvmcOutOfGas => StatusCode::EVMC_OUT_OF_GAS,
            EVMCStatusCode::EvmcInvalidInstruction => StatusCode::EVMC_INVALID_INSTRUCTION,
            EVMCStatusCode::EvmcUndefinedInstruction => StatusCode::EVMC_UNDEFINED_INSTRUCTION,
            EVMCStatusCode::EvmcStackOverflow => StatusCode::EVMC_STACK_OVERFLOW,
            EVMCStatusCode::EvmcStackUnderflow => StatusCode::EVMC_STACK_UNDERFLOW,
            EVMCStatusCode::EvmcBadJumpDestination => StatusCode::EVMC_BAD_JUMP_DESTINATION,
            EVMCStatusCode::EvmcInvalidMemoryAccess => StatusCode::EVMC_INVALID_MEMORY_ACCESS,
            EVMCStatusCode::EvmcCallDepthExceeded => StatusCode::EVMC_CALL_DEPTH_EXCEEDED,
            EVMCStatusCode::EvmcStaticModeViolation => StatusCode::EVMC_STATIC_MODE_VIOLATION,
            EVMCStatusCode::EvmcPrecompileFailure => StatusCode::EVMC_PRECOMPILE_FAILURE,
            EVMCStatusCode::EvmcContractValidationFailure => StatusCode::EVMC_CONTRACT_VALIDATION_FAILURE,
            EVMCStatusCode::EvmcArgumentOutOfRange => StatusCode::EVMC_ARGUMENT_OUT_OF_RANGE,
            EVMCStatusCode::EvmcWasmUnreachableInstruction => StatusCode::EVMC_WASM_UNREACHABLE_INSTRUCTION,
            EVMCStatusCode::EvmcWasmTrap => StatusCode::EVMC_WASM_TRAP,
            EVMCStatusCode::EvmcInternalError => StatusCode::EVMC_INTERNAL_ERROR,
            EVMCStatusCode::EvmcRejected => StatusCode::EVMC_REJECTED,
            EVMCStatusCode::EvmcOutOfMemory => StatusCode::EVMC_OUT_OF_MEMORY,
        }
    }
}

impl vstd::std_specs::convert::FromSpecImpl<EVMCStatusCode> for StatusCode {
    open spec fn obeys_from_spec() -> bool {
        true
    }

    open spec fn from_spec(s: EVMCStatusCode) -> StatusCode {
        status_of_evmc(s)
    }
}

impl From<StatusCode> for EVMCStatusCode {
    fn from(s: StatusCode) -> (r: EVMCStatusCode) {
        match s {
            StatusCode::EVMC_SUCCESS => EVMCStatusCode::EvmcSuccess,
            StatusCode::EVMC_FAILURE => EVMCStatusCode::EvmcFailure,
            StatusCode::EVMC_REVERT => EVMCStatusCode::EvmcRevert,
            StatusCode::EVMC_OUT_OF_GAS => EVMCStatusCode::EvmcOutOfGas,
            StatusCode::EVMC_INVALID_INSTRUCTION => EVMCStatusCode::EvmcInvalidInstruction,
            StatusCode::EVMC_UNDEFINED_INSTRUCTION => EVMCStatusCode::EvmcUndefinedInstruction,
            StatusCode::EVMC_STACK_OVERFLOW => EVMCStatusCode::EvmcStackOverflow,
            StatusCode::EVMC_STACK_UNDERFLOW => EVMCStatusCode::EvmcStackUnderflow,
            StatusCode::EVMC_BAD_JUMP_DESTINATION => EVMCStatusCode::EvmcBadJumpDestination,
            StatusCode::EVMC_INVALID_MEMORY_ACCESS => EVMCStatusCode::EvmcInvalidMemoryAccess,
            StatusCode::EVMC_CALL_DEPTH_EXCEEDED => EVMCStatusCode::EvmcCallDepthExceeded,
            StatusCode::EVMC_STATIC_MODE_VIOLATION => EVMCStatusCode::EvmcStaticModeViolation,
            StatusCode::EVMC_PRECOMPILE_FAILURE => EVMCStatusCode::EvmcPrecompileFailure,
            StatusCode::EVMC_CONTRACT_VALIDATION_FAILURE => EVMCStatusCode::EvmcContractValidationFailure,
            StatusCode::EVMC_ARGUMENT_OUT_OF_RANGE => EVMCStatusCode::EvmcArgumentOutOfRange,
            StatusCode::EVMC_WASM_UNREACHABLE_INSTRUCTION => EVMCStatusCode::EvmcWasmUnreachableInstruction,
            StatusCode::EVMC_WASM_TRAP => EVMCStatusCode::EvmcWasmTrap,
            StatusCode::EVMC_INTERNAL_ERROR => EVMCStatusCode::EvmcInternalError,
            StatusCode::EVMC_REJECTED => EVMCStatusCode::EvmcRejected,
            StatusCode::EVMC_OUT_OF_MEMORY => EVMCStatusCode::EvmcOutOfMemory,
        }
    }
}

impl vstd::std_specs::convert::FromSpecImpl<StatusCode> for EVMCStatusCode {
    open spec fn obeys_from_spec() -> bool {
        true
    }

    open spec fn from_spec(s: StatusCode) -> EVMCStatusCode {
        evmc_of_status(s)
    }
}

/// Converting a library status code to a status code and back gives it back, and
/// the other way round: the two sets of codes are in one-to-one correspondence.
pub proof fn lemma_status_codes_round_trip(a: EVMCStatusCode, b: StatusCode)
    ensures
        evmc_of_status(status_of_evmc(a)) == a,
        status_of_evmc(evmc_of_status(b)) == b,
{
}

/// The native exit reason that stands for an outcome of either machine.
pub open spec fn exit_reason_of(s: ExtendExitReason) -> ExitReason {
    match s {
        ExtendExitReason::ExitReason(reason) => reason,
        ExtendExitReason::EVMCStatusCode(status) => match status {
            EVMCStatusCode::EvmcSuccess => ExitReason::Succeed(ExitSucceed::Returned),
            EVMCStatusCode::EvmcFailure => ExitReason::Fatal(ExitFatal::Other("Evmc Failure")),
            EVMCStatusCode::EvmcRevert => ExitReason::Revert(ExitRevert::Reverted),
            EVMCStatusCode::EvmcOutOfGas => ExitReason::Error(ExitError::OutOfGas),
            EVMCStatusCode::EvmcInvalidInstruction => ExitReason::Error(ExitError::DesignatedInvalid),
            EVMCStatusCode::EvmcUndefinedInstruction => ExitReason::Fatal(ExitFatal::NotSupported),
            EVMCStatusCode::EvmcStackOverflow => ExitReason::Error(ExitError::StackOverflow),
            EVMCStatusCode::EvmcStackUnderflow => ExitReason::Error(ExitError::StackUnderflow),
            EVMCStatusCode::EvmcBadJumpDestination => ExitReason::Error(ExitError::InvalidJump),
            EVMCStatusCode::EvmcInvalidMemoryAccess => ExitReason::Error(ExitError::InvalidRange),
            EVMCStatusCode::EvmcCallDepthExceeded => ExitReason::Error(ExitError::CallTooDeep),
            EVMCStatusCode::EvmcStaticModeViolation => ExitReason::Error(ExitError::Other("Evmc Static Mode Violation")),
            EVMCStatusCode::EvmcPrecompileFailure => ExitReason::Error(ExitError::Other("Evmc Precompile Failure")),
            EVMCStatusCode::EvmcContractValidationFailure => ExitReason::Error(ExitError::Other("Evmc Contract Validation Failure")),
            EVMCStatusCode::EvmcArgumentOutOfRange => ExitReason::Error(ExitError::Other("Evmc Argument Out Of Range")),
            EVMCStatusCode::EvmcWasmUnreachableInstruction => ExitReason::Fatal(ExitFatal::UnhandledInterrupt),
            EVMCStatusCode::EvmcWasmTrap => ExitReason::Fatal(ExitFatal::UnhandledInterrupt),
            EVMCStatusCode::EvmcInternalError => ExitReason::Error(ExitError::Other("Evmc Internal Error")),
            EVMCStatusCode::EvmcRejected => ExitReason::Error(ExitError::Other("Evmc Rejected")),
            EVMCStatusCode::EvmcOutOfMemory => ExitReason::Error(ExitError::Other("Evmc Out Of Memory")),
        },
    }
}

impl From<ExtendExitReason> for ExitReason {
    fn from(s: ExtendExitReason) -> (r: ExitReason) {
        match s {
            ExtendExitReason::ExitReason(reason) => reason,
            ExtendExitReason::EVMCStatusCode(status) => match status {
                EVMCStatusCode::EvmcSuccess => ExitReason::Succeed(ExitSucceed::Returned),
                EVMCStatusCode::EvmcFailure => ExitReason::Fatal(ExitFatal::Other("Evmc Failure")),
                EVMCStatusCode::EvmcRevert => ExitReason::Revert(ExitRevert::Reverted),
                EVMCStatusCode::EvmcOutOfGas => ExitReason::Error(ExitError::OutOfGas),
                EVMCStatusCode::EvmcInvalidInstruction => ExitReason::Error(ExitError::DesignatedInvalid),
                EVMCStatusCode::EvmcUndefinedInstruction => ExitReason::Fatal(ExitFatal::NotSupported),
                EVMCStatusCode::EvmcStackOverflow => ExitReason::Error(ExitError::StackOverflow),
                EVMCStatusCode::EvmcStackUnderflow => ExitReason::Error(ExitError::StackUnderflow),
                EVMCStatusCode::EvmcBadJumpDestination => ExitReason::Error(ExitError::InvalidJump),
                EVMCStatusCode::EvmcInvalidMemoryAccess => ExitReason::Error(ExitError::InvalidRange),
                EVMCStatusCode::EvmcCallDepthExceeded => ExitReason::Error(ExitError::CallTooDeep),
                EVMCStatusCode::EvmcStaticModeViolation => ExitReason::Error(ExitError::Other("Evmc Static Mode Violation")),
                EVMCStatusCode::EvmcPrecompileFailure => ExitReason::Error(ExitError::Other("Evmc Precompile Failure")),
                EVMCStatusCode::EvmcContractValidationFailure => ExitReason::Error(ExitError::Other("Evmc Contract Validation Failure")),
                EVMCStatusCode::EvmcArgumentOutOfRange => ExitReason::Error(ExitError::Other("Evmc Argument Out Of Range")),
                EVMCStatusCode::EvmcWasmUnreachableInstruction => ExitReason::Fatal(ExitFatal::UnhandledInterrupt),
                EVMCStatusCode::EvmcWasmTrap => ExitReason::Fatal(ExitFatal::UnhandledInterrupt),
                EVMCStatusCode::EvmcInternalError => ExitReason::Error(ExitError::Other("Evmc Internal Error")),
                EVMCStatusCode::EvmcRejected => ExitReason::Error(ExitError::Other("Evmc Rejected")),
                EVMCStatusCode::EvmcOutOfMemory => ExitReason::Error(ExitError::Other("Evmc Out Of Memory")),
            },
        }
    }
}

impl vstd::std_specs::convert::FromSpecImpl<ExtendExitReason> for ExitReason {
    open spec fn obeys_from_spec() -> bool {
        true
    }

    open spec fn from_spec(s: ExtendExitReason) -> ExitReason {
        exit_reason_of(s)
    }
}

/// The status code that a native exit reason is reported as to the secondary machine;
/// errors without a code of their own become `EVMC_FAILURE`.
pub open spec fn status_of_reason(reason: ExitReason) -> StatusCode {
    match reason {
        ExitReason::Succeed(_) => StatusCode::EVMC_SUCCESS,
        ExitReason::Error(e) => match e {
            ExitError::StackUnderflow => StatusCode::EVMC_STACK_UNDERFLOW,
            ExitError::StackOverflow => StatusCode::EVMC_STACK_OVERFLOW,
            ExitError::InvalidJump => StatusCode::EVMC_BAD_JUMP_DESTINATION,
            ExitError::InvalidRange => StatusCode::EVMC_INVALID_MEMORY_ACCESS,
            ExitError::DesignatedInvalid => StatusCode::EVMC_INVALID_INSTRUCTION,
            ExitError::CallTooDeep => StatusCode::EVMC_CALL_DEPTH_EXCEEDED,
            ExitError::CreateContractLimit => StatusCode::EVMC_CONTRACT_VALIDATION_FAILURE,
            ExitError::OutOfGas => StatusCode::EVMC_OUT_OF_GAS,
            _ => StatusCode::EVMC_FAILURE,
        },
        ExitReason::Revert(_) => StatusCode::EVMC_REVERT,
        ExitReason::Fatal(f) => match f {
            ExitFatal::NotSupported => StatusCode::EVMC_UNDEFINED_INSTRUCTION,
            ExitFatal::UnhandledInterrupt => StatusCode::EVMC_WASM_TRAP,
            _ => StatusCode::EVMC_FAILURE,
        },
    }
}

/// Reports a native exit reason as a status code of the secondary machine.
pub fn reason_to_status(reason: &ExitReason) -> (r: StatusCode)
    ensures
        r == status_of_reason(*reason),
{
    match *reason {
        ExitReason::Succeed(_) => StatusCode::EVMC_SUCCESS,
        ExitReason::Error(e) => match e {
            ExitError::StackUnderflow => StatusCode::EVMC_STACK_UNDERFLOW,
            ExitError::StackOverflow => StatusCode::EVMC_STACK_OVERFLOW,
            ExitError::InvalidJump => StatusCode::EVMC_BAD_JUMP_DESTINATION,
            ExitError::InvalidRange => StatusCode::EVMC_INVALID_MEMORY_ACCESS,
            ExitError::DesignatedInvalid => StatusCode::EVMC_INVALID_INSTRUCTION,
            ExitError::CallTooDeep => StatusCode::EVMC_CALL_DEPTH_EXCEEDED,
            ExitError::CreateContractLimit => StatusCode::EVMC_CONTRACT_VALIDATION_FAILURE,
            ExitError::OutOfGas => StatusCode::EVMC_OUT_OF_GAS,
            _ => StatusCode::EVMC_FAILURE,
        },
        ExitReason::Revert(_) => StatusCode::EVMC_REVERT,
        ExitReason::Fatal(f) => match f {
            ExitFatal::NotSupported => StatusCode::EVMC_UNDEFINED_INSTRUCTION,
            ExitFatal::UnhandledInterrupt => StatusCode::EVMC_WASM_TRAP,
            _ => StatusCode::EVMC_FAILURE,
        },
    }
}

/// An emitted log record.
#[derive(Clone, Debug, PartialEq, Eq)]
pub struct Log {
    pub address: H160,
    pub topics: Vec<H256>,
    pub data: Vec<u8>,
}

/// A copy of a byte vector.
pub(crate) fn copy_bytes(v: &Vec<u8>) -> (r: Vec<u8>)
    ensures
        r@ == v@,
{
    let mut r: Vec<u8> = Vec::new();
    let mut i: usize = 0;
    while i < v.len()
        invariant
            i <= v@.len(),
            r@ == v@.subrange(0, i as int),
        decreases v@.len() - i,
    {
        r.push(v[i]);
        i = i + 1;
        assert(r@ =~= v@.subrange(0, i as int));
    }
    assert(r@ =~= v@);
    r
}

/// A copy of a vector of words.
pub(crate) fn copy_words(v: &Vec<H256>) -> (r: Vec<H256>)
    ensures
        r@ == v@,
{
    let mut r: Vec<H256> = Vec::new();
    let mut i: usize = 0;
    while i < v.len()
        invariant
            i <= v@.len(),
            r@ == v@.subrange(0, i as int),
        decreases v@.len() - i,
    {
        r.push(v[i]);
        i = i + 1;
        assert(r@ =~= v@.subrange(0, i as int));
    }
    assert(r@ =~= v@);
    r
}

/// What a log record holds, as the contracts see it.
pub struct LogView {
    pub address: H160,
    pub topics: Seq<H256>,
    pub data: Seq<u8>,
}

impl View for Log {
    type V = LogView;

    open spec fn view(&self) -> LogView {
        LogView { address: self.address, topics: self.topics@, data: self.data@ }
    }
}

/// The views of a list of log records.
pub open spec fn log_views(s: Seq<Log>) -> Seq<LogView> {
    s.map_values(|l: Log| l@)
}

impl Log {
    /// A copy of the record.
    pub fn copy(&self) -> (r: Log)
        ensures
            r@ == self@,
    {
        Log { address: self.address, topics: copy_words(&self.topics), data: copy_bytes(&self.data) }
    }
}

/// A copy of a list of log records.
pub fn copy_logs(v: &Vec<Log>) -> (r: Vec<Log>)
    ensures
        log_views(r@) == log_views(v@),
{
    let mut r: Vec<Log> = Vec::new();
    let mut i: usize = 0;
    while i < v.len()
        invariant
            i <= v@.len(),
            r@.len() == i,
            forall|j: int| 0 <= j < i ==> (#[trigger] r@[j])@ == v@[j]@,
        decreases v@.len() - i,
    {
        r.push(v[i].copy());
        i = i + 1;
    }
    assert(log_views(r@) =~= log_views(v@));
    r
}

/// The result of one top-level execution.
#[derive(Clone, Debug, PartialEq, Eq)]
pub struct ExecutionInfo<T> {
    pub exit_reason: ExtendExitReason,
    pub value: T,
    pub used_gas: U256,
    pub logs: Vec<Log>,
}

pub type CallInfo = ExecutionInfo<Vec<u8>>;

pub type CreateInfo = ExecutionInfo<H160>;

/// The result of either a call or a creation.
#[derive(Clone, Debug, PartialEq, Eq)]
pub enum CallOrCreateInfo {
    Call(CallInfo),
    Create(CreateInfo),
}

} // verus!
