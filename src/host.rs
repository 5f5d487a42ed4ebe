//! Requests of the secondary machine to its host for nested calls, and their answers.

use vstd::prelude::*;

use crate::fees::Error;
use crate::ledger::{account_in, nonce_bumped};
use crate::outcome::{
    status_of_evmc, status_of_reason, CallInfo, CreateInfo, EVMCStatusCode, ExecutionInfo,
    ExitReason, ExtendExitReason, StatusCode,
};
use crate::runner::CallKind;
use crate::state::VmStackState;
use crate::types::{H160, H256, U256};

verus! {

/// A call that the secondary machine asks its host to make, to be run as a
/// transaction of its own with the caller's nonce from before the request.
pub enum HostRequest {
    Call { source: H160, target: H160, input: Vec<u8>, value: U256, gas_limit: u64, nonce: U256 },
    Create { source: H160, init: Vec<u8>, value: U256, gas_limit: u64, nonce: U256 },
    Create2 {
        source: H160,
        init: Vec<u8>,
        salt: H256,
        value: U256,
        gas_limit: u64,
        nonce: U256,
    },
    Rejected,
}

/// The gas budget of a host request: a negative amount counts as none.
pub open spec fn budget_of(gas: i64) -> u64 {
    if gas < 0 {
        0
    } else {
        gas as u64
    }
}

/// Turns a call request of the secondary machine into the transaction to run:
/// the sender's nonce is read, then bumped in the ledger whatever the kind;
/// calls and creations are forwarded with the nonce read, other kinds are
/// rejected.
pub fn host_call_request(
    state: &mut VmStackState,
    kind: CallKind,
    destination: H160,
    sender: H160,
    value: U256,
    input: &Vec<u8>,
    gas: i64,
    salt: H256,
) -> (r: HostRequest)
    requires
        old(state).wf(),
    ensures
        final(state).wf(),
        final(state).frames() == old(state).frames(),
        final(state).ledger_view() == nonce_bumped(old(state).ledger_view(), sender),
        final(state).vicinity() == old(state).vicinity(),
        final(state).tx_context() == old(state).tx_context(),
        final(state).env() == old(state).env(),
        ({
            let n = account_in(old(state).ledger_view().accounts, sender).nonce;
            match r {
                HostRequest::Call { source, target, input: i, value: v, gas_limit, nonce } => kind
                    == CallKind::EVMC_CALL && source == sender && target == destination && i@ == input@
                    && v == value && gas_limit == budget_of(gas) && nonce.value() == n,
                HostRequest::Create { source, init, value: v, gas_limit, nonce } => kind
                    == CallKind::EVMC_CREATE && source == sender && init@ == input@ && v == value
                    && gas_limit == budget_of(gas) && nonce.value() == n,
                HostRequest::Create2 { source, init, salt: s, value: v, gas_limit, nonce } => kind
                    == CallKind::EVMC_CREATE2 && source == sender && init@ == input@ && s == salt && v
                    == value && gas_limit == budget_of(gas) && nonce.value() == n,
                HostRequest::Rejected => kind == CallKind::EVMC_DELEGATECALL || kind
                    == CallKind::EVMC_CALLCODE,
            }
        }),
{
    let basic = state.basic(sender);
    state.inc_nonce(sender);
    let budget: u64 = if gas < 0 {
        0
    } else {
        gas as u64
    };
    match kind {
        CallKind::EVMC_CALL => HostRequest::Call {
            source: sender,
            target: destination,
            input: crate::outcome::copy_bytes(input),
            value,
            gas_limit: budget,
            nonce: basic.nonce,
        },
        CallKind::EVMC_CREATE => HostRequest::Create {
            source: sender,
            init: crate::outcome::copy_bytes(input),
            value,
            gas_limit: budget,
            nonce: basic.nonce,
        },
        CallKind::EVMC_CREATE2 => HostRequest::Create2 {
            source: sender,
            init: crate::outcome::copy_bytes(input),
            salt,
            value,
            gas_limit: budget,
            nonce: basic.nonce,
        },
        _ => HostRequest::Rejected,
    }
}

/// Whether every byte of `a` is zero.
pub open spec fn is_zero_address(a: H160) -> bool {
    forall|i: int| 0 <= i < 20 ==> a.bytes@[i] == 0
}

/// The status code reported to the secondary machine for a finished request.
pub open spec fn status_of_result<T>(info: Result<ExecutionInfo<T>, Error>) -> StatusCode {
    match info {
        Ok(i) => match i.exit_reason {
            ExtendExitReason::ExitReason(reason) => status_of_reason(reason),
            ExtendExitReason::EVMCStatusCode(s) => status_of_evmc(s),
        },
        Err(_) => StatusCode::EVMC_FAILURE,
    }
}

/// The gas left to the secondary machine after a request with budget `gas`:
/// what the request did not use, never below zero; all of it when the request
/// was rejected before running.
pub open spec fn gas_left_of<T>(info: Result<ExecutionInfo<T>, Error>, gas: i64) -> i64 {
    match info {
        Ok(i) => if i.used_gas.value() <= gas {
            (gas - i.used_gas.value()) as i64
        } else {
            0
        },
        Err(_) => gas,
    }
}

fn status_of(exit_reason: &ExtendExitReason) -> (r: StatusCode)
    ensures
        r == (match *exit_reason {
            ExtendExitReason::ExitReason(reason) => status_of_reason(reason),
            ExtendExitReason::EVMCStatusCode(s) => status_of_evmc(s),
        }),
{
    match exit_reason {
        ExtendExitReason::ExitReason(reason) => crate::outcome::reason_to_status(reason),
        ExtendExitReason::EVMCStatusCode(s) => StatusCode::from(*s),
    }
}

fn gas_left_after(used_gas: &U256, gas: i64) -> (r: i64)
    ensures
        r == (if used_gas.value() <= gas {
            (gas - used_gas.value()) as i64
        } else {
            0i64
        }),
{
    match used_gas.to_u64() {
        Some(u) => {
            if gas >= 0 && u <= gas as u64 {
                gas - u as i64
            } else {
                0
            }
        },
        None => {
            proof {
                crate::types::lemma_value_zero_high(*used_gas);
            }
            0
        },
    }
}

/// What the secondary machine gets back for a call request: the output, the
/// gas left, no address, and the status.
pub fn host_call_result(info: &Result<CallInfo, Error>, gas: i64) -> (r: (Vec<u8>, i64, H160, StatusCode))
    ensures
        info matches Ok(i) ==> r.0@ == i.value@,
        info is Err ==> r.0@.len() == 0,
        r.1 == gas_left_of(*info, gas),
        is_zero_address(r.2),
        r.3 == status_of_result(*info),
{
    match info {
        Ok(i) => (
            crate::outcome::copy_bytes(&i.value),
            gas_left_after(&i.used_gas, gas),
            H160::zero(),
            status_of(&i.exit_reason),
        ),
        Err(_) => (Vec::new(), gas, H160::zero(), StatusCode::EVMC_FAILURE),
    }
}

/// What the secondary machine gets back for a creation request: no output, the
/// gas left, the created address (zero when rejected), and the status.
pub fn host_create_result(info: &Result<CreateInfo, Error>, gas: i64) -> (r: (Vec<u8>, i64, H160, StatusCode))
    ensures
        r.0@.len() == 0,
        r.1 == gas_left_of(*info, gas),
        info matches Ok(i) ==> r.2 == i.value,
        info is Err ==> is_zero_address(r.2),
        r.3 == status_of_result(*info),
{
    match info {
        Ok(i) => (Vec::new(), gas_left_after(&i.used_gas, gas), i.value, status_of(&i.exit_reason)),
        Err(_) => (Vec::new(), gas, H160::zero(), StatusCode::EVMC_FAILURE),
    }
}

/// What the secondary machine gets back for a rejected request kind: no output,
/// all the gas, no address, `EVMC_REJECTED`.
pub fn host_rejected_result(gas: i64) -> (r: (Vec<u8>, i64, H160, StatusCode))
    ensures
        r.0@.len() == 0,
        r.1 == gas,
        is_zero_address(r.2),
        r.3 == StatusCode::EVMC_REJECTED,
{
    (Vec::new(), gas, H160::zero(), StatusCode::EVMC_REJECTED)
}

} // verus!
