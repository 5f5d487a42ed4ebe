//! Fee reservation before execution and settlement after it.

use vstd::prelude::*;

use crate::ledger::{
    account_in, with_accounts, with_balance, with_code, with_storage, AccountView, Ledger,
    LedgerView,
};
use crate::outcome::log_views;
use crate::runner::Runner;
use crate::state::VmStackState;
use crate::substate::FrameView;
use crate::types::{
    u256_checked_add, u256_checked_mul, u256_ge, u256_modulus, u256_saturating_sub, H160, U256,
};

verus! {

/// Why a transaction is rejected before it executes.
#[derive(Clone, Copy, Debug, PartialEq, Eq, Structural)]
pub enum Error {
    GasPriceTooLow,
    FeeOverflow,
    PaymentOverflow,
    BalanceLow,
    InvalidNonce,
}

/// The gas price charged: the one given, or zero when none is given (an estimate).
pub open spec fn charged_gas_price(gas_price: Option<U256>) -> nat {
    match gas_price {
        Some(p) => p.value(),
        None => 0,
    }
}

/// The first rejection that the checks before execution find, in their order:
/// gas price, fee overflow, payment overflow, balance, nonce. `None` when all pass.
pub open spec fn pre_check(
    balance: nat,
    account_nonce: nat,
    min_gas_price: nat,
    value: nat,
    gas_limit: nat,
    gas_price: Option<U256>,
    nonce: Option<U256>,
) -> Option<Error> {
    let fee = charged_gas_price(gas_price) * gas_limit;
    if gas_price matches Some(p) && p.value() < min_gas_price {
        Some(Error::GasPriceTooLow)
    } else if fee >= u256_modulus() {
        Some(Error::FeeOverflow)
    } else if value + fee >= u256_modulus() {
        Some(Error::PaymentOverflow)
    } else if balance < value + fee {
        Some(Error::BalanceLow)
    } else if nonce matches Some(n) && n.value() != account_nonce {
        Some(Error::InvalidNonce)
    } else {
        None
    }
}

/// The ledger after the fee `fee` is taken from `source`.
pub open spec fn fee_withdrawn(l: LedgerView, source: H160, fee: nat) -> LedgerView {
    with_accounts(
        l,
        l.accounts.insert(
            source,
            with_balance(account_in(l.accounts, source), (account_in(l.accounts, source).balance - fee) as nat),
        ),
    )
}

/// What is handed back of a reserved fee: the part that was not used.
pub open spec fn refund_of(total_fee: nat, actual_fee: nat) -> nat {
    if total_fee >= actual_fee {
        (total_fee - actual_fee) as nat
    } else {
        0
    }
}

impl Runner {
    /// Checks a transaction before execution and reserves its whole fee,
    /// `gas_price * gas_limit`, from the sender. The checks run in a fixed order and
    /// the first failure is reported; the fee is taken after the balance check and
    /// before the nonce check. Returns the gas price charged and the fee reserved.
    pub fn pre_processing(
        ledger: &mut Ledger,
        min_gas_price: U256,
        source: H160,
        value: U256,
        gas_limit: u64,
        gas_price: Option<U256>,
        nonce: Option<U256>,
    ) -> (r: Result<(U256, U256), Error>)
        requires
            old(ledger).wf(),
        ensures
            final(ledger).wf(),
            ({
                let acct = account_in(old(ledger)@.accounts, source);
                let err = pre_check(
                    acct.balance,
                    acct.nonce,
                    min_gas_price.value(),
                    value.value(),
                    gas_limit as nat,
                    gas_price,
                    nonce,
                );
                let fee = (charged_gas_price(gas_price) * gas_limit) as nat;
                &&& r is Err <==> err is Some
                &&& r matches Err(e) ==> err == Some(e)
                &&& r matches Ok((p, f)) ==> p.value() == charged_gas_price(gas_price) && f.value() == fee
                &&& (err is None || err == Some(Error::InvalidNonce)) ==> final(ledger)@ == fee_withdrawn(
                    old(ledger)@,
                    source,
                    fee,
                )
                &&& (err is Some && err != Some(Error::InvalidNonce)) ==> final(ledger)@ == old(ledger)@
            }),
    {
        let price = match gas_price {
            Some(p) => {
                if !u256_ge(p, min_gas_price) {
                    return Err(Error::GasPriceTooLow);
                }
                p
            },
            None => U256::zero(),
        };
        let total_fee = match u256_checked_mul(price, U256::from_u64(gas_limit)) {
            Some(f) => f,
            None => {
                return Err(Error::FeeOverflow);
            },
        };
        let total_payment = match u256_checked_add(value, total_fee) {
            Some(t) => t,
            None => {
                return Err(Error::PaymentOverflow);
            },
        };
        let account = ledger.basic(source);
        if !u256_ge(account.balance, total_payment) {
            return Err(Error::BalanceLow);
        }
        let withdrawn = ledger.withdraw(source, total_fee);
        assert(withdrawn);
        if let Some(n) = nonce {
            if !(u256_ge(account.nonce, n) && u256_ge(n, account.nonce)) {
                return Err(Error::InvalidNonce);
            }
        }
        Ok((price, total_fee))
    }
}

/// When the gas price is acceptable and neither the fee nor the payment
/// overflows, a sender short of funds is rejected for its balance, whatever its
/// nonce: the balance check comes before the nonce check.
pub proof fn lemma_balance_rejected_before_nonce(
    balance: nat,
    account_nonce: nat,
    min_gas_price: nat,
    value: nat,
    gas_limit: nat,
    gas_price: Option<U256>,
    nonce: Option<U256>,
)
    requires
        !(gas_price matches Some(p) && p.value() < min_gas_price),
        value + charged_gas_price(gas_price) * gas_limit < u256_modulus(),
        balance < value + charged_gas_price(gas_price) * gas_limit,
    ensures
        pre_check(balance, account_nonce, min_gas_price, value, gas_limit, gas_price, nonce) == Some(
            Error::BalanceLow,
        ),
{
}

/// Fee conservation: with the whole fee `gas_price * gas_limit` reserved and the
/// unused part refunded after `used_gas <= gas_limit` was used, the sender pays
/// exactly `gas_price * used_gas`.
pub proof fn lemma_fee_conservation(gas_price: nat, gas_limit: nat, used_gas: nat)
    requires
        used_gas <= gas_limit,
    ensures
        gas_price * used_gas <= gas_price * gas_limit,
        gas_price * gas_limit - refund_of(gas_price * gas_limit, gas_price * used_gas) == gas_price
            * used_gas,
{
    assert(gas_price * used_gas <= gas_price * gas_limit) by (nonlinear_arith)
        requires
            used_gas <= gas_limit,
    ;
}

/// Fee conservation on the ledger: reserving the whole fee for `gas_limit` and
/// then refunding what `used_gas <= gas_limit` did not use leaves the sender
/// with exactly `gas_price * used_gas` less than before.
pub proof fn lemma_sender_pays_used_gas(
    l: LedgerView,
    source: H160,
    gas_price: nat,
    gas_limit: nat,
    used_gas: nat,
)
    requires
        used_gas <= gas_limit,
        account_in(l.accounts, source).balance < u256_modulus(),
        account_in(l.accounts, source).balance >= gas_price * gas_limit,
    ensures
        ({
            let reserved = fee_withdrawn(l, source, (gas_price * gas_limit) as nat);
            let after = refunded(
                reserved.accounts,
                source,
                refund_of((gas_price * gas_limit) as nat, (gas_price * used_gas) as nat),
            );
            account_in(after, source).balance == account_in(l.accounts, source).balance - gas_price
                * used_gas
        }),
{
    lemma_fee_conservation(gas_price, gas_limit, used_gas);
}

/// An account whose contract was removed: no code and no storage left.
pub open spec fn removed_contract(v: AccountView) -> AccountView {
    with_storage(with_code(v, Seq::empty()), Map::empty())
}

/// Accounts after `refund` is credited to `source`, when the balance then fits
/// in 256 bits; otherwise unchanged.
pub open spec fn refunded(m: Map<H160, AccountView>, source: H160, refund: nat) -> Map<
    H160,
    AccountView,
> {
    if account_in(m, source).balance + refund < u256_modulus() {
        m.insert(source, with_balance(account_in(m, source), account_in(m, source).balance + refund))
    } else {
        m
    }
}

/// Accounts after the contract of every address in `deletes` is removed.
pub open spec fn flushed(m: Map<H160, AccountView>, deletes: Set<H160>) -> Map<H160, AccountView> {
    Map::new(
        |a: H160| m.contains_key(a) || deletes.contains(a),
        |a: H160|
            if deletes.contains(a) {
                removed_contract(account_in(m, a))
            } else {
                m[a]
            },
    )
}

/// The ledger after settlement of a frame: the unused fee is refunded to
/// `source`, the frame's deletions are carried out, and its logs are appended
/// to the event stream.
pub open spec fn settled(l: LedgerView, frame: FrameView, source: H160, refund: nat) -> LedgerView {
    LedgerView {
        accounts: flushed(refunded(l.accounts, source, refund), frame.deletes),
        saved: l.saved,
        block_hashes: l.block_hashes,
        events: l.events + frame.logs,
    }
}

impl Runner {
    /// Settles the current frame: refunds `total_fee - actual_fee` (never
    /// negative) to `source`, removes the contract of each address the frame marked
    /// for deletion, and emits each of its logs as an event.
    pub fn post_processing(state: &mut VmStackState, source: H160, total_fee: U256, actual_fee: U256)
        requires
            old(state).wf(),
        ensures
            final(state).wf(),
            final(state).frames() == old(state).frames(),
            final(state).vicinity() == old(state).vicinity(),
            final(state).tx_context() == old(state).tx_context(),
            final(state).env() == old(state).env(),
            final(state).ledger_view() == settled(
                old(state).ledger_view(),
                old(state).frames().last(),
                source,
                refund_of(total_fee.value(), actual_fee.value()),
            ),
    {
        let refund = u256_saturating_sub(total_fee, actual_fee);
        let deletes = state.current_deletes();
        let logs = state.current_logs();
        let ghost frame = state.frames().last();
        let ghost l0 = state.ledger_view();
        let ledger = state.ledger_mut();
        let _ = ledger.deposit(source, refund);
        let ghost mid = ledger@.accounts;
        assert(mid == refunded(l0.accounts, source, refund_of(total_fee.value(), actual_fee.value())));
        let mut i: usize = 0;
        assert(mid =~= flushed(mid, Set::new(|a: H160| deletes@.subrange(0, 0).contains(a))));
        while i < deletes.len()
            invariant
                i <= deletes@.len(),
                ledger.wf(),
                ledger@.saved == l0.saved,
                ledger@.block_hashes == l0.block_hashes,
                ledger@.events == l0.events,
                ledger@.accounts == flushed(
                    mid,
                    Set::new(|a: H160| deletes@.subrange(0, i as int).contains(a)),
                ),
            decreases deletes@.len() - i,
        {
            let d = deletes[i];
            let ghost cur = ledger@.accounts;
            ledger.remove_account(d);
            let ghost before = Set::new(|a: H160| deletes@.subrange(0, i as int).contains(a));
            let ghost after = Set::new(|a: H160| deletes@.subrange(0, i + 1).contains(a));
            assert(after =~= before.insert(d)) by {
                assert forall|a: H160| after.contains(a) <==> before.contains(a) || a == d by {
                    if deletes@.subrange(0, i + 1).contains(a) {
                        let j = choose|j: int| 0 <= j < i + 1 && #[trigger] deletes@.subrange(0, i + 1)[j] == a;
                        if j < i {
                            assert(deletes@.subrange(0, i as int)[j] == a);
                        }
                    }
                    if deletes@.subrange(0, i as int).contains(a) {
                        let j = choose|j: int| 0 <= j < i && #[trigger] deletes@.subrange(0, i as int)[j] == a;
                        assert(deletes@.subrange(0, i + 1)[j] == a);
                    }
                    if a == d {
                        assert(deletes@.subrange(0, i + 1)[i as int] == a);
                    }
                }
            }
            assert(ledger@.accounts =~= flushed(mid, after));
            i = i + 1;
        }
        assert(Set::new(|a: H160| deletes@.subrange(0, deletes@.len() as int).contains(a)) =~= frame.deletes) by {
            assert(deletes@.subrange(0, deletes@.len() as int) =~= deletes@);
        }
        let mut k: usize = 0;
        while k < logs.len()
            invariant
                k <= logs@.len(),
                ledger.wf(),
                ledger@.saved == l0.saved,
                ledger@.block_hashes == l0.block_hashes,
                ledger@.accounts == flushed(mid, frame.deletes),
                ledger@.events == l0.events + log_views(logs@.subrange(0, k as int)),
            decreases logs@.len() - k,
        {
            let log = logs[k].copy();
            ledger.deposit_event(log);
            assert(log_views(logs@.subrange(0, k + 1)) =~= log_views(logs@.subrange(0, k as int)).push(
                logs@[k as int]@,
            ));
            k = k + 1;
        }
        assert(logs@.subrange(0, logs@.len() as int) =~= logs@);
        assert(ledger@.events =~= l0.events + frame.logs);
    }
}

/// The gas that a native-interpreter run used: the figure it reports, or the
/// whole budget when it reports none (a revert or an error) or one above the
/// budget.
pub fn used_gas_of(reported: Option<U256>, gas_limit: u64) -> (r: u64)
    ensures
        r == (match reported {
            Some(u) => if u.value() <= gas_limit {
                u.value() as u64
            } else {
                gas_limit
            },
            None => gas_limit,
        }),
{
    match reported {
        Some(u) => match u.to_u64() {
            Some(v) => {
                if v <= gas_limit {
                    v
                } else {
                    gas_limit
                }
            },
            None => {
                proof {
                    crate::types::lemma_value_zero_high(u);
                }
                gas_limit
            },
        },
        None => gas_limit,
    }
}

/// The fee for `used_gas` at `gas_price`; it fits in 256 bits because the fee
/// for the whole budget does.
pub(crate) fn actual_fee(gas_price: U256, used_gas: u64, gas_limit: u64, total_fee: U256) -> (r: U256)
    requires
        used_gas <= gas_limit,
        total_fee.value() == gas_price.value() * gas_limit,
    ensures
        r.value() == gas_price.value() * used_gas,
{
    proof {
        lemma_fee_conservation(gas_price.value(), gas_limit as nat, used_gas as nat);
        crate::types::lemma_value_zero_high(total_fee);
    }
    match u256_checked_mul(gas_price, U256::from_u64(used_gas)) {
        Some(f) => f,
        None => {
            assert(false);
            U256::zero()
        },
    }
}

/// A fee reserved from an account, to be corrected once the actual fee is known.
#[derive(Clone, Copy, Debug, PartialEq, Eq)]
pub struct FeeImbalance {
    pub amount: U256,
}

/// Reserves `fee` from `address`; fails with `BalanceLow`, changing nothing,
/// when the account holds less.
pub fn withdraw_fee(ledger: &mut Ledger, address: H160, fee: U256) -> (r: Result<FeeImbalance, Error>)
    requires
        old(ledger).wf(),
    ensures
        final(ledger).wf(),
        r is Ok <==> account_in(old(ledger)@.accounts, address).balance >= fee.value(),
        r matches Ok(i) ==> i.amount == fee && final(ledger)@ == fee_withdrawn(
            old(ledger)@,
            address,
            fee.value(),
        ),
        r is Err ==> r == Err::<FeeImbalance, Error>(Error::BalanceLow) && final(ledger)@ == old(
            ledger,
        )@,
{
    if ledger.withdraw(address, fee) {
        Ok(FeeImbalance { amount: fee })
    } else {
        Err(Error::BalanceLow)
    }
}

/// Corrects a reservation to the fee actually due: the part of the reserved
/// amount above `corrected_fee` goes back to `address` (nothing when the
/// correction is larger), when the balance then fits in 256 bits.
pub fn correct_and_deposit_fee(
    ledger: &mut Ledger,
    address: H160,
    corrected_fee: U256,
    imbalance: FeeImbalance,
)
    requires
        old(ledger).wf(),
    ensures
        final(ledger).wf(),
        final(ledger)@ == with_accounts(
            old(ledger)@,
            refunded(
                old(ledger)@.accounts,
                address,
                refund_of(imbalance.amount.value(), corrected_fee.value()),
            ),
        ),
{
    let refund = u256_saturating_sub(imbalance.amount, corrected_fee);
    let _ = ledger.deposit(address, refund);
}

/// Reserves ten units of fee from `evm_addr`, which holds at least that much.
pub fn ten_units_imbalance(ledger: &mut Ledger, evm_addr: &H160) -> (r: FeeImbalance)
    requires
        old(ledger).wf(),
        account_in(old(ledger)@.accounts, *evm_addr).balance >= 10,
    ensures
        final(ledger).wf(),
        r.amount.value() == 10,
        final(ledger)@ == fee_withdrawn(old(ledger)@, *evm_addr, 10),
{
    match withdraw_fee(ledger, *evm_addr, U256::from_u64(10)) {
        Ok(i) => i,
        Err(_) => {
            assert(false);
            FeeImbalance { amount: U256::zero() }
        },
    }
}

/// A fee oracle whose minimum gas price is always zero.
pub struct FixedGasPrice;

impl FixedGasPrice {
    pub fn min_gas_price() -> (r: U256)
        ensures
            r.value() == 0,
    {
        U256::zero()
    }
}

} // verus!
