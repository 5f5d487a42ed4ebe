//! Transactional execution backend for a smart-contract virtual machine.
//!
//! The library holds the parts of the backend whose behaviour is fixed by
//! contract: 256-bit amounts, contract-address derivation, the unified
//! outcome model, the nested substate stack, an in-memory ledger with nested
//! transactions, the adapter that interpreters run against, and the fee
//! settlement and dispatch rules of the transaction runner. The interpreters
//! themselves are outside: a transaction is begun here, handed to an
//! interpreter with the state it runs against, and finished here with what
//! the interpreter reports.

mod address;
mod fees;
mod host;
mod keyed;
mod ledger;
mod outcome;
mod precompile;
mod runner;
mod state;
mod substate;
mod types;

pub use address::{
    create2_address, create2_address_of, create_address, create_address_of, keccak256_of,
    lemma_create_address_preimage_injective, sha256_of,
};
pub use ledger::{lemma_rollback_keeps_nonces, AccountView, Basic, Ledger, LedgerView};
pub use outcome::{
    lemma_status_codes_round_trip, reason_to_status, CallInfo, CallOrCreateInfo, CreateInfo,
    EVMCStatusCode, ExecutionInfo, ExitError, ExitFatal, ExitReason, ExitRevert, ExitSucceed,
    ExtendExitReason, Log, LogView, StatusCode,
};
pub use fees::{
    correct_and_deposit_fee, lemma_balance_rejected_before_nonce, lemma_fee_conservation,
    lemma_sender_pays_used_gas,
    ten_units_imbalance, used_gas_of, withdraw_fee, Error, FeeImbalance, FixedGasPrice,
};
pub use host::{
    host_call_request, host_call_result, host_create_result, host_rejected_result, HostRequest,
};
pub use precompile::{precompile_of, Precompile};
pub use runner::{
    call_kind_of_target, code_kind, create2_target, create_target, is_wasm, ByteCodeKind, CallKind,
    lemma_ssvm_failure_keeps_logs, lemma_ssvm_frames_start_empty, EvmSession, Rejection, Runner,
    RunnerConfig, SsvmResult, SsvmSession, SsvmStart, used_gas_from_left,
};
pub use state::{BlockEnv, StorageStatus, TxContext, Vicinity, VmStackState};
pub use substate::{
    lemma_deletion_inheritance, lemma_nesting_balance, lemma_revert_keeps_logs_drops_deletes,
    lemma_revert_scenario, FrameView, StackSubstateMetadata, SubstrateStackSubstate,
};
pub use types::{H160, H256, U256};
