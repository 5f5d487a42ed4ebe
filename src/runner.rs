//! Code-kind dispatch and the transaction sessions of both virtual machines.

use vstd::prelude::*;

use crate::address::{
    create2_address, create2_address_of, create_address, create_address_of, keccak256,
    keccak256_of, sha256_of,
};
use crate::fees::{
    actual_fee, charged_gas_price, fee_withdrawn, pre_check, refund_of, refunded, settled, Error,
};
use crate::host::is_zero_address;
use crate::ledger::{account_in, keep_nonces, nonce_bumped, with_code, Ledger, LedgerView};
use crate::outcome::{
    evmc_of_status, log_views, EVMCStatusCode, ExecutionInfo, ExitReason, ExtendExitReason, Log,
    StatusCode,
};
use crate::precompile::{precompile_at, Precompile};
use crate::state::{BlockEnv, TxContext, Vicinity, VmStackState};
use crate::substate::{
    commit_spec, enter_spec, fresh_frame, revert_spec, FrameView, StackSubstateMetadata,
};
use crate::types::{H160, H256, U256};

verus! {

/// The transaction runner: pre-checks and fee reservation, code-kind dispatch,
/// precompiles, and settlement after execution.
pub struct Runner;

/// Which interpreter runs a piece of code.
#[derive(Clone, Copy, Debug, PartialEq, Eq, Structural)]
pub enum ByteCodeKind {
    EVM,
    EWASM,
}

/// The four bytes that open code for the secondary (linear-memory) machine.
pub open spec fn wasm_magic() -> Seq<u8> {
    seq![0x00u8, 0x61u8, 0x73u8, 0x6du8]
}

/// Whether `code` opens with the secondary machine's magic header.
pub fn is_wasm(code: &Vec<u8>) -> (r: bool)
    ensures
        r == (code@.len() >= 4 && code@.subrange(0, 4) == wasm_magic()),
{
    let r = code.len() >= 4 && code[0] == 0x00u8 && code[1] == 0x61u8 && code[2] == 0x73u8 && code[3]
        == 0x6du8;
    if code.len() >= 4 {
        if r {
            assert(code@.subrange(0, 4) =~= wasm_magic());
        } else {
            assert(code@.subrange(0, 4)[0] == code@[0]);
            assert(code@.subrange(0, 4)[1] == code@[1]);
            assert(code@.subrange(0, 4)[2] == code@[2]);
            assert(code@.subrange(0, 4)[3] == code@[3]);
        }
    }
    r
}

/// The interpreter for `code`.
pub fn code_kind(code: &Vec<u8>) -> (r: ByteCodeKind)
    ensures
        r == (if code@.len() >= 4 && code@.subrange(0, 4) == wasm_magic() {
            ByteCodeKind::EWASM
        } else {
            ByteCodeKind::EVM
        }),
{
    if is_wasm(code) {
        ByteCodeKind::EWASM
    } else {
        ByteCodeKind::EVM
    }
}

/// Parameters of the chain that the runner reads: the minimum gas price and the
/// block facts.
#[derive(Clone, Copy, Debug, PartialEq, Eq)]
pub struct RunnerConfig {
    pub min_gas_price: U256,
    pub env: BlockEnv,
}

/// A transaction rejected before execution, with the ledger handed back.
pub struct Rejection {
    pub error: Error,
    pub ledger: Ledger,
}

/// A transaction on the native interpreter between its pre-checks and its
/// settlement: the state to execute against, the sender, the gas price
/// charged, the fee reserved and the gas budget.
pub struct EvmSession {
    pub state: VmStackState,
    pub source: H160,
    pub gas_price: U256,
    pub total_fee: U256,
    pub gas_limit: u64,
}

/// What the pre-checks do to a ledger, by their result.
pub open spec fn after_pre_check(
    l: LedgerView,
    config: RunnerConfig,
    source: H160,
    value: U256,
    gas_limit: u64,
    gas_price: Option<U256>,
    nonce: Option<U256>,
) -> (Option<Error>, LedgerView) {
    let acct = account_in(l.accounts, source);
    let err = pre_check(
        acct.balance,
        acct.nonce,
        config.min_gas_price.value(),
        value.value(),
        gas_limit as nat,
        gas_price,
        nonce,
    );
    let fee = (charged_gas_price(gas_price) * gas_limit) as nat;
    (
        err,
        if err is None || err == Some(Error::InvalidNonce) {
            fee_withdrawn(l, source, fee)
        } else {
            l
        },
    )
}

impl Runner {
    /// Starts a transaction on the native interpreter: runs the pre-checks and, when
    /// they pass, builds the state over `ledger` with a root frame whose budget is
    /// `gas_limit`.
    pub fn begin_evm(
        ledger: Ledger,
        config: &RunnerConfig,
        source: H160,
        value: U256,
        gas_limit: u64,
        gas_price: Option<U256>,
        nonce: Option<U256>,
    ) -> (r: Result<EvmSession, Rejection>)
        requires
            ledger.wf(),
            ledger@.saved.len() == 0,
        ensures
            ({
                let (err, l) = after_pre_check(ledger@, *config, source, value, gas_limit, gas_price, nonce);
                &&& r is Err <==> err is Some
                &&& r matches Err(j) ==> err == Some(j.error) && j.ledger.wf() && j.ledger@ == l
                &&& r matches Ok(s) ==> {
                    &&& s.state.wf()
                    &&& s.state.frames() == seq![
                        fresh_frame(StackSubstateMetadata { gas_limit, is_static: false, depth: None }),
                    ]
                    &&& s.state.ledger_view() == l
                    &&& s.state.vicinity() == (Vicinity { gas_price: s.gas_price, origin: source })
                    &&& s.state.tx_context() is None
                    &&& s.state.env() == config.env
                    &&& s.source == source
                    &&& s.gas_price.value() == charged_gas_price(gas_price)
                    &&& s.total_fee.value() == s.gas_price.value() * gas_limit
                    &&& s.gas_limit == gas_limit
                }
            }),
    {
        let mut ledger = ledger;
        match Runner::pre_processing(&mut ledger, config.min_gas_price, source, value, gas_limit, gas_price, nonce) {
            Err(error) => Err(Rejection { error, ledger }),
            Ok((gas_price, total_fee)) => {
                let vicinity = Vicinity { gas_price, origin: source };
                let metadata = StackSubstateMetadata::new(gas_limit);
                let state = VmStackState::new(vicinity, metadata, None, ledger, config.env);
                Ok(EvmSession { state, source, gas_price, total_fee, gas_limit })
            },
        }
    }
}

impl Runner {
    /// Settles a transaction after the native interpreter ran: charges
    /// `gas_price * used_gas`, refunds the rest of the reserved fee, carries out
    /// the root frame's deletions, emits its logs, and reports the outcome.
    pub fn finish_evm<R>(session: EvmSession, reason: ExitReason, used_gas: u64, value: R) -> (r: (
        ExecutionInfo<R>,
        Ledger,
    ))
        requires
            session.state.wf(),
            session.state.frames().len() == 1,
            used_gas <= session.gas_limit,
            session.total_fee.value() == session.gas_price.value() * session.gas_limit,
        ensures
            r.0.exit_reason == ExtendExitReason::ExitReason(reason),
            r.0.value == value,
            r.0.used_gas.value() == used_gas,
            log_views(r.0.logs@) == session.state.frames().last().logs,
            r.1.wf(),
            r.1@ == settled(
                session.state.ledger_view(),
                session.state.frames().last(),
                session.source,
                refund_of(session.total_fee.value(), (session.gas_price.value() * used_gas) as nat),
            ),
    {
        let EvmSession { state, source, gas_price, total_fee, gas_limit } = session;
        let mut state = state;
        let fee = actual_fee(gas_price, used_gas, gas_limit, total_fee);
        Runner::post_processing(&mut state, source, total_fee, fee);
        let logs = state.current_logs();
        let info = ExecutionInfo {
            exit_reason: ExtendExitReason::ExitReason(reason),
            value,
            used_gas: U256::from_u64(used_gas),
            logs,
        };
        (info, state.into_ledger())
    }
}

/// The kinds of call that the secondary machine asks its host for.
#[allow(non_camel_case_types)]
#[derive(Clone, Copy, Debug, PartialEq, Eq, Structural)]
pub enum CallKind {
    EVMC_CALL,
    EVMC_DELEGATECALL,
    EVMC_CALLCODE,
    EVMC_CREATE,
    EVMC_CREATE2,
}

/// What the secondary machine returns for a transaction: its output, the
/// outcome, the gas used and the logs.
pub type SsvmResult = (Vec<u8>, ExtendExitReason, U256, Vec<Log>);

/// A transaction on the secondary machine between its pre-checks and its
/// settlement. The state has one frame entered below the root.
pub struct SsvmSession {
    pub state: VmStackState,
    pub source: H160,
    pub target: H160,
    pub gas_price: U256,
    pub total_fee: U256,
    pub gas_limit: u64,
    pub call_kind: CallKind,
    pub code: Vec<u8>,
}

/// How a transaction on the secondary machine goes on after its pre-checks:
/// settled already, when its target is a precompiled routine, or waiting for
/// the machine to run `code`.
pub enum SsvmStart {
    Precompiled(SsvmResult, Ledger),
    Run(SsvmSession),
}

/// `x` as an `i64`, or `i64::MAX` when it does not fit.
pub open spec fn clamp_i64(x: nat) -> i64 {
    if x <= i64::MAX {
        x as i64
    } else {
        i64::MAX
    }
}

fn to_i64(x: u64) -> (r: i64)
    ensures
        r == clamp_i64(x as nat),
{
    if x <= 0x7fff_ffff_ffff_ffff {
        x as i64
    } else {
        0x7fff_ffff_ffff_ffff
    }
}

/// The gas that the secondary machine used, from the gas it reports left: a
/// negative report counts as nothing left, a report above the budget as
/// nothing used.
pub open spec fn used_from_left(gas_limit: u64, gas_left: i64) -> u64 {
    if gas_left < 0 {
        gas_limit
    } else if gas_left as int > gas_limit as int {
        0
    } else {
        (gas_limit - gas_left) as u64
    }
}

/// The code that the secondary machine runs for a transaction.
pub open spec fn ssvm_code(kind: CallKind, target_code: Seq<u8>, data: Seq<u8>) -> Seq<u8> {
    match kind {
        CallKind::EVMC_CALL => target_code,
        CallKind::EVMC_CREATE => data,
        CallKind::EVMC_CREATE2 => data,
        _ => Seq::empty(),
    }
}

/// Whether a transaction of this kind creates a contract.
pub open spec fn is_create(kind: CallKind) -> bool {
    kind == CallKind::EVMC_CREATE || kind == CallKind::EVMC_CREATE2
}

/// The ledger and the root frame after the entered frame of a secondary-machine
/// transaction closes by `status`: on success it commits, with `output`
/// installed as the code of `target` for a creation; on a revert it reverts;
/// otherwise it is discarded. Nonces survive a revert or a discard.
pub open spec fn ssvm_exit(
    l: LedgerView,
    frames: Seq<FrameView>,
    kind: CallKind,
    target: H160,
    output: Seq<u8>,
    status: StatusCode,
) -> (LedgerView, FrameView) {
    if status == StatusCode::EVMC_SUCCESS {
        let accounts = if is_create(kind) {
            l.accounts.insert(target, with_code(account_in(l.accounts, target), output))
        } else {
            l.accounts
        };
        (
            LedgerView {
                accounts,
                saved: l.saved.drop_last(),
                block_hashes: l.block_hashes,
                events: l.events,
            },
            commit_spec(frames)->Some_0.last(),
        )
    } else {
        (
            LedgerView {
                accounts: keep_nonces(l.saved.last(), l.accounts),
                saved: l.saved.drop_last(),
                block_hashes: l.block_hashes,
                events: l.events,
            },
            revert_spec(frames)->Some_0.last(),
        )
    }
}

/// The ledger once a secondary-machine transaction has started: the sender's
/// nonce bumped, then a nested transaction opened.
pub open spec fn ssvm_entered(l: LedgerView, source: H160) -> LedgerView {
    let b = nonce_bumped(l, source);
    LedgerView { saved: b.saved.push(b.accounts), ..b }
}

/// The frames once a secondary-machine transaction has started: the root and
/// one entered frame, both with the whole budget.
pub open spec fn ssvm_frames(gas_limit: u64) -> Seq<FrameView> {
    enter_spec(
        seq![fresh_frame(StackSubstateMetadata { gas_limit, is_static: false, depth: None })],
        gas_limit,
        false,
    )
}

/// The gas that the secondary machine used, from the gas it reports left.
pub fn used_gas_from_left(gas_limit: u64, gas_left: i64) -> (r: u64)
    ensures
        r == used_from_left(gas_limit, gas_left),
{
    if gas_left < 0 {
        gas_limit
    } else if gas_left as u64 > gas_limit {
        0
    } else {
        gas_limit - gas_left as u64
    }
}

impl Runner {
    /// Closes the current frame after the secondary machine ran in it, by
    /// `status`: on success it commits, with `output` installed as the code of
    /// `target` for a creation; on a revert it reverts; otherwise it is
    /// discarded.
    pub fn exit_by_status(
        state: &mut VmStackState,
        kind: CallKind,
        target: H160,
        output: &Vec<u8>,
        status: StatusCode,
    )
        requires
            old(state).wf(),
            old(state).frames().len() >= 2,
        ensures
            final(state).wf(),
            final(state).ledger_view() == ssvm_exit(
                old(state).ledger_view(),
                old(state).frames(),
                kind,
                target,
                output@,
                status,
            ).0,
            final(state).frames() == (if status == StatusCode::EVMC_SUCCESS {
                commit_spec(old(state).frames())->Some_0
            } else {
                revert_spec(old(state).frames())->Some_0
            }),
            final(state).vicinity() == old(state).vicinity(),
            final(state).tx_context() == old(state).tx_context(),
            final(state).env() == old(state).env(),
    {
        let ghost frames = state.frames();
        let ghost l0 = state.ledger_view();
        if status == StatusCode::EVMC_SUCCESS {
            if kind == CallKind::EVMC_CREATE || kind == CallKind::EVMC_CREATE2 {
                let out = crate::outcome::copy_bytes(output);
                state.set_code(target, out);
            }
            let _ = state.exit_commit();
        } else if status == StatusCode::EVMC_REVERT {
            let _ = state.exit_revert();
        } else {
            let _ = state.exit_discard();
        }
        assert(state.ledger_view().accounts == ssvm_exit(l0, frames, kind, target, output@, status).0.accounts);
    }
}

impl Runner {
    /// Settles a transaction after the secondary machine ran: the entered frame is
    /// closed by `status` first, then the fee for the used gas is charged, the rest
    /// refunded, the root frame's deletions carried out and its logs emitted.
    pub fn finish_ssvm(session: SsvmSession, output: Vec<u8>, gas_left: i64, status: StatusCode) -> (r: (
        SsvmResult,
        Ledger,
    ))
        requires
            session.state.wf(),
            session.state.frames().len() == 2,
            session.total_fee.value() == session.gas_price.value() * session.gas_limit,
        ensures
            ({
                let used = used_from_left(session.gas_limit, gas_left);
                let (l, root) = ssvm_exit(
                    session.state.ledger_view(),
                    session.state.frames(),
                    session.call_kind,
                    session.target,
                    output@,
                    status,
                );
                &&& r.0.0@ == output@
                &&& r.0.1 == ExtendExitReason::EVMCStatusCode(evmc_of_status(status))
                &&& r.0.2.value() == used
                &&& log_views(r.0.3@) == root.logs
                &&& r.1.wf()
                &&& r.1@ == settled(
                    l,
                    root,
                    session.source,
                    refund_of(session.total_fee.value(), (session.gas_price.value() * used) as nat),
                )
            }),
    {
        let SsvmSession { state, source, target, gas_price, total_fee, gas_limit, call_kind, .. } =
            session;
        let mut state = state;
        let used = used_gas_from_left(gas_limit, gas_left);
        Runner::exit_by_status(&mut state, call_kind, target, &output, status);
        let fee = actual_fee(gas_price, used, gas_limit, total_fee);
        Runner::post_processing(&mut state, source, total_fee, fee);
        let logs = state.current_logs();
        let reason = ExtendExitReason::EVMCStatusCode(EVMCStatusCode::from(status));
        ((output, reason, U256::from_u64(used), logs), state.into_ledger())
    }
}

impl Runner {
    /// Starts a transaction on the secondary machine: runs the pre-checks; when
    /// they pass, builds the state with the transaction context, bumps the
    /// sender's nonce, enters a frame with the whole budget, and settles at once
    /// when `target` is a precompiled routine, which uses the whole budget.
    pub fn begin_ssvm(
        ledger: Ledger,
        config: &RunnerConfig,
        source: H160,
        target: H160,
        value: U256,
        data: &Vec<u8>,
        gas_limit: u64,
        gas_price: Option<U256>,
        nonce: Option<U256>,
        call_kind: CallKind,
    ) -> (r: Result<SsvmStart, Rejection>)
        requires
            ledger.wf(),
            ledger@.saved.len() == 0,
        ensures
            ({
                let (err, l) = after_pre_check(ledger@, *config, source, value, gas_limit, gas_price, nonce);
                &&& r is Err <==> err is Some
                &&& r matches Err(j) ==> err == Some(j.error) && j.ledger.wf() && j.ledger@ == l
                &&& r matches Ok(SsvmStart::Precompiled(res, l2)) ==> {
                    let (lx, root) = ssvm_exit(
                        ssvm_entered(l, source),
                        ssvm_frames(gas_limit),
                        call_kind,
                        target,
                        res.0@,
                        StatusCode::EVMC_SUCCESS,
                    );
                    &&& precompile_at(target) is Some
                    &&& precompile_at(target) == Some(Precompile::Sha256) ==> res.0@ == sha256_of(data@)
                    &&& precompile_at(target) == Some(Precompile::Keccak256) ==> res.0@ == keccak256_of(
                        data@,
                    )
                    &&& res.1 == ExtendExitReason::EVMCStatusCode(EVMCStatusCode::EvmcSuccess)
                    &&& res.2.value() == gas_limit
                    &&& log_views(res.3@) == root.logs
                    &&& l2.wf()
                    &&& l2@ == settled(
                        lx,
                        root,
                        source,
                        refund_of(
                            (charged_gas_price(gas_price) * gas_limit) as nat,
                            (charged_gas_price(gas_price) * gas_limit) as nat,
                        ),
                    )
                }
                &&& r matches Ok(SsvmStart::Run(s)) ==> {
                    &&& precompile_at(target) is None
                    &&& s.state.wf()
                    &&& s.state.frames() == ssvm_frames(gas_limit)
                    &&& s.state.ledger_view() == ssvm_entered(l, source)
                    &&& s.state.vicinity() == (Vicinity { gas_price: s.gas_price, origin: source })
                    &&& s.state.tx_context() is Some
                    &&& ({
                        let t = s.state.tx_context()->Some_0;
                        &&& t.tx_gas_price == s.gas_price
                        &&& t.tx_origin == source
                        &&& is_zero_address(t.block_coinbase)
                        &&& t.block_number == clamp_i64(config.env.block_number as nat)
                        &&& t.block_timestamp == clamp_i64(config.env.timestamp_ms as nat)
                        &&& t.block_gas_limit == clamp_i64(gas_limit as nat)
                        &&& t.block_difficulty.value() == 0
                    })
                    &&& s.state.env() == config.env
                    &&& s.source == source
                    &&& s.target == target
                    &&& s.gas_price.value() == charged_gas_price(gas_price)
                    &&& s.total_fee.value() == s.gas_price.value() * gas_limit
                    &&& s.gas_limit == gas_limit
                    &&& s.call_kind == call_kind
                    &&& s.code@ == ssvm_code(
                        call_kind,
                        account_in(s.state.ledger_view().accounts, target).code,
                        data@,
                    )
                }
            }),
    {
        let mut ledger = ledger;
        let (gas_price, total_fee) = match Runner::pre_processing(
            &mut ledger,
            config.min_gas_price,
            source,
            value,
            gas_limit,
            gas_price,
            nonce,
        ) {
            Err(error) => {
                return Err(Rejection { error, ledger });
            },
            Ok(p) => p,
        };
        let tx_context = TxContext::new(
            gas_price,
            source,
            H160::zero(),
            to_i64(config.env.block_number),
            to_i64(config.env.timestamp_ms),
            to_i64(gas_limit),
            U256::zero(),
        );
        let vicinity = Vicinity { gas_price, origin: source };
        let metadata = StackSubstateMetadata::new(gas_limit);
        let mut state = VmStackState::new(vicinity, metadata, Some(tx_context), ledger, config.env);
        state.inc_nonce(source);
        state.enter(gas_limit, false);
        let code = match call_kind {
            CallKind::EVMC_CALL => state.code(target),
            CallKind::EVMC_CREATE => crate::outcome::copy_bytes(data),
            CallKind::EVMC_CREATE2 => crate::outcome::copy_bytes(data),
            _ => Vec::new(),
        };
        assert(code@ == ssvm_code(call_kind, account_in(state.ledger_view().accounts, target).code, data@));
        let (is_precompile, output, gas_used) = Runner::execute_precompiles(&target, data, gas_limit);
        let session = SsvmSession {
            state,
            source,
            target,
            gas_price,
            total_fee,
            gas_limit,
            call_kind,
            code,
        };
        if is_precompile {
            let gas_left = to_i64(gas_limit - gas_used);
            let (res, l) = Runner::finish_ssvm(session, output, gas_left, StatusCode::EVMC_SUCCESS);
            Ok(SsvmStart::Precompiled(res, l))
        } else {
            Ok(SsvmStart::Run(session))
        }
    }
}

/// The interpreter that runs a call to `target`: chosen by the header of its code.
pub fn call_kind_of_target(ledger: &Ledger, target: H160) -> (r: ByteCodeKind)
    requires
        ledger.wf(),
    ensures
        ({
            let code = account_in(ledger@.accounts, target).code;
            r == (if code.len() >= 4 && code.subrange(0, 4) == wasm_magic() {
                ByteCodeKind::EWASM
            } else {
                ByteCodeKind::EVM
            })
        }),
{
    let code = ledger.code(target);
    code_kind(&code)
}

/// Address of the contract that `source` creates: derived from the nonce given,
/// or from the sender's current nonce when none is given.
pub fn create_target(ledger: &Ledger, source: H160, nonce: Option<U256>) -> (r: H160)
    requires
        ledger.wf(),
    ensures
        r.bytes@ == create_address_of(
            source.bytes@,
            match nonce {
                Some(n) => n.value(),
                None => account_in(ledger@.accounts, source).nonce,
            },
        ),
{
    let n = match nonce {
        Some(n) => n,
        None => ledger.basic(source).nonce,
    };
    create_address(source, n)
}

/// Address of the contract that `source` creates with `salt` from `init`.
pub fn create2_target(source: H160, init: &Vec<u8>, salt: H256) -> (r: H160)
    ensures
        r.bytes@ == create2_address_of(source.bytes@, salt.bytes@, keccak256_of(init@)),
{
    let code_hash = keccak256(init.as_slice());
    create2_address(source, salt, code_hash)
}

/// A secondary-machine run that is not a success surfaces, in order, the logs
/// its entered frame emitted, drops the deletions that frame marked, and leaves
/// the ledger as it was when the run began but for nonces. A run starts with a
/// root frame that holds no logs, as `Runner::begin_ssvm` leaves it.
pub proof fn lemma_ssvm_failure_keeps_logs(
    l: LedgerView,
    frames: Seq<FrameView>,
    kind: CallKind,
    target: H160,
    output: Seq<u8>,
    status: StatusCode,
)
    requires
        frames.len() == 2,
        frames[0].logs.len() == 0,
        status != StatusCode::EVMC_SUCCESS,
    ensures
        ssvm_exit(l, frames, kind, target, output, status).1.logs == frames[1].logs,
        ssvm_exit(l, frames, kind, target, output, status).1.deletes == frames[0].deletes,
        ssvm_exit(l, frames, kind, target, output, status).0.accounts == keep_nonces(
            l.saved.last(),
            l.accounts,
        ),
{
    assert(frames[0].logs + frames[1].logs =~= frames[1].logs);
}

/// The root frame of a run that `Runner::begin_ssvm` starts holds no logs and no
/// deletions.
pub proof fn lemma_ssvm_frames_start_empty(gas_limit: u64)
    ensures
        ssvm_frames(gas_limit).len() == 2,
        ssvm_frames(gas_limit)[0].logs.len() == 0,
        ssvm_frames(gas_limit)[1].logs.len() == 0,
        ssvm_frames(gas_limit)[0].deletes == Set::<H160>::empty(),
{
}

} // verus!
