//! The state that interpreters execute against.

use vstd::prelude::*;

use crate::address::{keccak256, keccak256_of};
use crate::ledger::{
    account_in, keep_nonces, slot_in, with_accounts, with_balance, with_code, with_nonce,
    with_storage, zero_word, Basic, Ledger, LedgerView,
};
use crate::outcome::{log_views, ExitError, Log, LogView};
use crate::substate::{
    commit_spec, deleted_spec, enter_spec, log_spec, revert_spec, set_deleted_spec, FrameView,
    StackSubstateMetadata, SubstrateStackSubstate,
};
use crate::types::{u256_modulus, H160, H256, U256};

verus! {

/// The fixed inputs of one top-level transaction.
#[derive(Clone, Copy, Debug, PartialEq, Eq)]
pub struct Vicinity {
    pub gas_price: U256,
    pub origin: H160,
}

/// Facts about the chain that executions read: chain id, current block number,
/// and the current block's timestamp in milliseconds.
#[derive(Clone, Copy, Debug, PartialEq, Eq)]
pub struct BlockEnv {
    pub chain_id: u64,
    pub block_number: u64,
    pub timestamp_ms: u64,
}

/// The transaction context handed to the secondary virtual machine.
#[derive(Clone, Copy, Debug, PartialEq, Eq)]
pub struct TxContext {
    pub tx_gas_price: U256,
    pub tx_origin: H160,
    pub block_coinbase: H160,
    pub block_number: i64,
    pub block_timestamp: i64,
    pub block_gas_limit: i64,
    pub block_difficulty: U256,
}

impl TxContext {
    pub fn new(
        tx_gas_price: U256,
        tx_origin: H160,
        block_coinbase: H160,
        block_number: i64,
        block_timestamp: i64,
        block_gas_limit: i64,
        block_difficulty: U256,
    ) -> (r: TxContext)
        ensures
            r == (TxContext {
                tx_gas_price,
                tx_origin,
                block_coinbase,
                block_number,
                block_timestamp,
                block_gas_limit,
                block_difficulty,
            }),
    {
        TxContext {
            tx_gas_price,
            tx_origin,
            block_coinbase,
            block_number,
            block_timestamp,
            block_gas_limit,
            block_difficulty,
        }
    }
}

/// What a storage write reports to the secondary virtual machine.
#[allow(non_camel_case_types)]
#[derive(Clone, Copy, Debug, PartialEq, Eq, Structural)]
pub enum StorageStatus {
    EVMC_STORAGE_UNCHANGED,
    EVMC_STORAGE_MODIFIED,
    EVMC_STORAGE_MODIFIED_AGAIN,
    EVMC_STORAGE_ADDED,
    EVMC_STORAGE_DELETED,
}

/// The state that an interpreter executes against: the transaction's vicinity,
/// the substate stack, the secondary machine's transaction context, the ledger
/// and the chain facts. Each frame above the root is paired with one open
/// nested transaction of the ledger.
pub struct VmStackState {
    vicinity: Vicinity,
    substate: SubstrateStackSubstate,
    tx_context: Option<TxContext>,
    ledger: Ledger,
    env: BlockEnv,
}

/// Whether the words of `w` are all zero.
pub open spec fn is_zero_word(w: H256) -> bool {
    forall|i: int| 0 <= i < 32 ==> w.bytes@[i] == 0
}

impl VmStackState {
    pub closed spec fn vicinity(&self) -> Vicinity {
        self.vicinity
    }

    /// The frames of the substate stack, root first.
    pub closed spec fn frames(&self) -> Seq<FrameView> {
        self.substate@
    }

    pub closed spec fn ledger_view(&self) -> LedgerView {
        self.ledger@
    }

    pub closed spec fn tx_context(&self) -> Option<TxContext> {
        self.tx_context
    }

    pub closed spec fn env(&self) -> BlockEnv {
        self.env
    }

    pub closed spec fn wf(&self) -> bool {
        &&& self.substate.wf()
        &&& self.ledger.wf()
        &&& self.ledger@.saved.len() + 1 == self.substate@.len()
    }

    /// A well-formed state has its root frame, and one open ledger transaction
    /// for each frame above it.
    pub proof fn lemma_wf_has_root(&self)
        requires
            self.wf(),
        ensures
            self.frames().len() >= 1,
            self.ledger_view().saved.len() + 1 == self.frames().len(),
    {
    }

    /// A state over `ledger` with one root frame.
    pub fn new(
        vicinity: Vicinity,
        metadata: StackSubstateMetadata,
        tx_context: Option<TxContext>,
        ledger: Ledger,
        env: BlockEnv,
    ) -> (r: VmStackState)
        requires
            metadata.depth is None,
            ledger.wf(),
            ledger@.saved.len() == 0,
        ensures
            r.wf(),
            r.vicinity() == vicinity,
            r.frames() == seq![crate::substate::fresh_frame(metadata)],
            r.tx_context() == tx_context,
            r.ledger_view() == ledger@,
            r.env() == env,
    {
        VmStackState {
            vicinity,
            substate: SubstrateStackSubstate::new(metadata),
            tx_context,
            ledger,
            env,
        }
    }

    /// The ledger, read-only.
    pub fn ledger(&self) -> (r: &Ledger)
        ensures
            r@ == self.ledger_view(),
            self.wf() ==> r.wf(),
    {
        &self.ledger
    }

    /// Gives back the ledger; the substate is dropped.
    pub fn into_ledger(self) -> (r: Ledger)
        ensures
            r@ == self.ledger_view(),
            self.wf() ==> r.wf(),
    {
        self.ledger
    }

    /// Logs of the current frame.
    pub fn current_logs(&self) -> (r: Vec<Log>)
        ensures
            log_views(r@) == self.frames().last().logs,
    {
        self.substate.current_logs()
    }

    /// Addresses that the current frame marked for deletion, each once.
    pub fn current_deletes(&self) -> (r: Vec<H160>)
        requires
            self.wf(),
        ensures
            r@.no_duplicates(),
            forall|a: H160| #[trigger] r@.contains(a) <==> self.frames().last().deletes.contains(a),
    {
        self.substate.current_deletes()
    }

    pub fn gas_price(&self) -> (r: U256)
        ensures
            r == self.vicinity().gas_price,
    {
        self.vicinity.gas_price
    }

    pub fn origin(&self) -> (r: H160)
        ensures
            r == self.vicinity().origin,
    {
        self.vicinity.origin
    }

    /// Hash of block `number`; zero when `number` does not fit in 32 bits or the
    /// block is unknown.
    pub fn block_hash(&self, number: U256) -> (r: H256)
        ensures
            (number.value() < 0x1_0000_0000 && number.value() < self.ledger_view().block_hashes.len())
                ==> r == self.ledger_view().block_hashes[number.value() as int],
            !(number.value() < 0x1_0000_0000 && number.value() < self.ledger_view().block_hashes.len())
                ==> r.bytes@ == zero_word(),
    {
        match number.to_u64() {
            Some(n) => {
                if n <= 0xffff_ffff {
                    self.ledger.block_hash(n as u32)
                } else {
                    let z = H256::zero();
                    assert(z.bytes@ =~= zero_word());
                    z
                }
            },
            None => {
                let z = H256::zero();
                assert(z.bytes@ =~= zero_word());
                z
            },
        }
    }

    pub fn block_number(&self) -> (r: U256)
        ensures
            r.value() == self.env().block_number,
    {
        U256::from_u64(self.env.block_number)
    }

    /// There is no coinbase on this chain: the zero address.
    pub fn block_coinbase(&self) -> (r: H160)
        ensures
            forall|i: int| 0 <= i < 20 ==> r.bytes@[i] == 0,
    {
        H160::zero()
    }

    /// Timestamp of the current block in seconds.
    pub fn block_timestamp(&self) -> (r: U256)
        ensures
            r.value() == self.env().timestamp_ms / 1000,
    {
        U256::from_u64(self.env.timestamp_ms / 1000)
    }

    pub fn block_difficulty(&self) -> (r: U256)
        ensures
            r.value() == 0,
    {
        U256::zero()
    }

    pub fn block_gas_limit(&self) -> (r: U256)
        ensures
            r.value() == 0,
    {
        U256::zero()
    }

    pub fn chain_id(&self) -> (r: U256)
        ensures
            r.value() == self.env().chain_id,
    {
        U256::from_u64(self.env.chain_id)
    }

    /// Every address exists: empty and absent accounts are one concept here.
    pub fn account_exists(&self, address: H160) -> (r: bool)
        ensures
            r,
    {
        true
    }

    pub fn basic(&self, address: H160) -> (r: Basic)
        requires
            self.wf(),
        ensures
            r.balance.value() == account_in(self.ledger_view().accounts, address).balance,
            r.nonce.value() == account_in(self.ledger_view().accounts, address).nonce,
    {
        self.ledger.basic(address)
    }

    pub fn code(&self, address: H160) -> (r: Vec<u8>)
        requires
            self.wf(),
        ensures
            r@ == account_in(self.ledger_view().accounts, address).code,
    {
        self.ledger.code(address)
    }

    pub fn storage(&self, address: H160, index: H256) -> (r: H256)
        requires
            self.wf(),
        ensures
            r.bytes@ == slot_in(account_in(self.ledger_view().accounts, address).storage, index),
    {
        self.ledger.storage(address, index)
    }

    /// Storage values from before the transaction are not kept.
    pub fn original_storage(&self, address: H160, index: H256) -> (r: Option<H256>)
        ensures
            r is None,
    {
        None
    }

    /// Writes `value` into the slot `index` of `address`; a zero value removes
    /// the slot.
    pub fn set_storage(&mut self, address: H160, index: H256, value: H256)
        requires
            old(self).wf(),
        ensures
            final(self).wf(),
            final(self).frames() == old(self).frames(),
            final(self).vicinity() == old(self).vicinity(),
            final(self).tx_context() == old(self).tx_context(),
            final(self).env() == old(self).env(),
            final(self).ledger_view() == with_accounts(
                old(self).ledger_view(),
                old(self).ledger_view().accounts.insert(
                    address,
                    with_storage(
                        account_in(old(self).ledger_view().accounts, address),
                        if is_zero_word(value) {
                            account_in(old(self).ledger_view().accounts, address).storage.remove(index)
                        } else {
                            account_in(old(self).ledger_view().accounts, address).storage.insert(
                                index,
                                value,
                            )
                        },
                    ),
                ),
            ),
    {
        if value.is_zero() {
            self.ledger.remove_storage(address, index);
        } else {
            self.ledger.set_storage(address, index, value);
        }
    }

    /// Clears the storage of `address`.
    pub fn reset_storage(&mut self, address: H160)
        requires
            old(self).wf(),
        ensures
            final(self).wf(),
            final(self).frames() == old(self).frames(),
            final(self).vicinity() == old(self).vicinity(),
            final(self).tx_context() == old(self).tx_context(),
            final(self).env() == old(self).env(),
            final(self).ledger_view() == with_accounts(
                old(self).ledger_view(),
                old(self).ledger_view().accounts.insert(
                    address,
                    with_storage(account_in(old(self).ledger_view().accounts, address), Map::empty()),
                ),
            ),
    {
        self.ledger.reset_storage(address);
    }

    /// Installs `code` at `address`.
    pub fn set_code(&mut self, address: H160, code: Vec<u8>)
        requires
            old(self).wf(),
        ensures
            final(self).wf(),
            final(self).frames() == old(self).frames(),
            final(self).vicinity() == old(self).vicinity(),
            final(self).tx_context() == old(self).tx_context(),
            final(self).env() == old(self).env(),
            final(self).ledger_view() == with_accounts(
                old(self).ledger_view(),
                old(self).ledger_view().accounts.insert(
                    address,
                    with_code(account_in(old(self).ledger_view().accounts, address), code@),
                ),
            ),
    {
        self.ledger.set_code(address, code);
    }

    /// Adds one to the nonce of `address`, directly in the ledger.
    pub fn inc_nonce(&mut self, address: H160)
        requires
            old(self).wf(),
        ensures
            final(self).wf(),
            final(self).frames() == old(self).frames(),
            final(self).vicinity() == old(self).vicinity(),
            final(self).tx_context() == old(self).tx_context(),
            final(self).env() == old(self).env(),
            account_in(old(self).ledger_view().accounts, address).nonce + 1 < u256_modulus()
                ==> final(self).ledger_view() == with_accounts(
                old(self).ledger_view(),
                old(self).ledger_view().accounts.insert(
                    address,
                    with_nonce(
                        account_in(old(self).ledger_view().accounts, address),
                        account_in(old(self).ledger_view().accounts, address).nonce + 1,
                    ),
                ),
            ),
            account_in(old(self).ledger_view().accounts, address).nonce + 1 >= u256_modulus()
                ==> final(self).ledger_view() == old(self).ledger_view(),
    {
        self.ledger.inc_nonce(address);
    }

    /// Moves `value` between two accounts; fails with `OutOfFund` as the ledger does.
    pub fn transfer(&mut self, source: H160, target: H160, value: U256) -> (r: Result<(), ExitError>)
        requires
            old(self).wf(),
        ensures
            final(self).wf(),
            final(self).frames() == old(self).frames(),
            final(self).vicinity() == old(self).vicinity(),
            final(self).tx_context() == old(self).tx_context(),
            final(self).env() == old(self).env(),
            (source == target || value.value() == 0) ==> r is Ok && final(self).ledger_view() == old(
                self,
            ).ledger_view(),
            (source != target && value.value() > 0) ==> (r is Ok <==> (account_in(
                old(self).ledger_view().accounts,
                source,
            ).balance >= value.value() && account_in(old(self).ledger_view().accounts, target).balance
                + value.value() < u256_modulus())),
            (source != target && value.value() > 0 && r is Ok) ==> final(self).ledger_view()
                == with_accounts(
                old(self).ledger_view(),
                old(self).ledger_view().accounts.insert(
                    source,
                    with_balance(
                        account_in(old(self).ledger_view().accounts, source),
                        (account_in(old(self).ledger_view().accounts, source).balance
                            - value.value()) as nat,
                    ),
                ).insert(
                    target,
                    with_balance(
                        account_in(old(self).ledger_view().accounts, target),
                        account_in(old(self).ledger_view().accounts, target).balance
                            + value.value(),
                    ),
                ),
            ),
            r is Err ==> r == Err::<(), ExitError>(ExitError::OutOfFund) && final(self).ledger_view()
                == old(self).ledger_view(),
    {
        self.ledger.transfer(source, target, value)
    }

    /// Balances are not reset on this chain.
    pub fn reset_balance(&mut self, address: H160)
        ensures
            *final(self) == *old(self),
    {
    }

    /// Accounts are not touched on this chain: every address exists already.
    pub fn touch(&mut self, address: H160)
        ensures
            *final(self) == *old(self),
    {
    }

    /// Whether `address` has no balance, no nonce and no code.
    pub fn is_empty(&self, address: H160) -> (r: bool)
        requires
            self.wf(),
        ensures
            r == (account_in(self.ledger_view().accounts, address).balance == 0 && account_in(
                self.ledger_view().accounts,
                address,
            ).nonce == 0 && account_in(self.ledger_view().accounts, address).code.len() == 0),
    {
        let basic = self.ledger.basic(address);
        let code = self.ledger.code(address);
        let zero = U256::zero();
        basic.balance.ge(&zero) && zero.ge(&basic.balance) && zero.ge(&basic.nonce) && code.len()
            == 0
    }

    pub fn metadata(&self) -> (r: &StackSubstateMetadata)
        ensures
            *r == self.frames().last().metadata,
    {
        self.substate.metadata()
    }

    /// Metadata of the current frame, to be updated in place.
    pub fn metadata_mut(&mut self) -> (r: &mut StackSubstateMetadata)
        ensures
            *r == old(self).frames().last().metadata,
            final(self).frames() == old(self).frames().update(
                old(self).frames().len() - 1,
                FrameView {
                    metadata: *final(r),
                    deletes: old(self).frames().last().deletes,
                    logs: old(self).frames().last().logs,
                },
            ),
            final(self).ledger_view() == old(self).ledger_view(),
            final(self).vicinity() == old(self).vicinity(),
            final(self).tx_context() == old(self).tx_context(),
            final(self).env() == old(self).env(),
            old(self).wf() && final(r).depth == old(self).frames().last().metadata.depth
                ==> final(self).wf(),
    {
        self.substate.metadata_mut()
    }

    /// Enters a call: a child frame is pushed and a nested ledger transaction opened.
    pub fn enter(&mut self, gas_limit: u64, is_static: bool)
        requires
            old(self).wf(),
        ensures
            final(self).wf(),
            final(self).frames() == enter_spec(old(self).frames(), gas_limit, is_static),
            final(self).ledger_view() == (LedgerView {
                saved: old(self).ledger_view().saved.push(old(self).ledger_view().accounts),
                ..old(self).ledger_view()
            }),
            final(self).vicinity() == old(self).vicinity(),
            final(self).tx_context() == old(self).tx_context(),
            final(self).env() == old(self).env(),
    {
        self.substate.enter(gas_limit, is_static);
        self.ledger.start_transaction();
    }

    /// Leaves a call keeping its effects; fails at the root frame.
    pub fn exit_commit(&mut self) -> (r: Result<(), ExitError>)
        requires
            old(self).wf(),
        ensures
            final(self).wf(),
            r is Ok <==> old(self).frames().len() >= 2,
            r is Ok ==> final(self).frames() == commit_spec(old(self).frames())->Some_0,
            r is Ok ==> final(self).ledger_view() == (LedgerView {
                saved: old(self).ledger_view().saved.drop_last(),
                ..old(self).ledger_view()
            }),
            r is Err ==> final(self).frames() == old(self).frames() && final(self).ledger_view()
                == old(self).ledger_view(),
            final(self).vicinity() == old(self).vicinity(),
            final(self).tx_context() == old(self).tx_context(),
            final(self).env() == old(self).env(),
    {
        let r = self.substate.exit_commit();
        if r.is_ok() {
            self.ledger.commit_transaction();
        }
        r
    }

    /// Leaves a reverted call: its logs stay, its deletions and ledger changes
    /// are undone but for nonces; fails at the root frame.
    pub fn exit_revert(&mut self) -> (r: Result<(), ExitError>)
        requires
            old(self).wf(),
        ensures
            final(self).wf(),
            r is Ok <==> old(self).frames().len() >= 2,
            r is Ok ==> final(self).frames() == revert_spec(old(self).frames())->Some_0,
            r is Ok ==> final(self).ledger_view() == (LedgerView {
                accounts: keep_nonces(
                    old(self).ledger_view().saved.last(),
                    old(self).ledger_view().accounts,
                ),
                saved: old(self).ledger_view().saved.drop_last(),
                ..old(self).ledger_view()
            }),
            r is Err ==> final(self).frames() == old(self).frames() && final(self).ledger_view()
                == old(self).ledger_view(),
            final(self).vicinity() == old(self).vicinity(),
            final(self).tx_context() == old(self).tx_context(),
            final(self).env() == old(self).env(),
    {
        let r = self.substate.exit_revert();
        if r.is_ok() {
            self.ledger.rollback_transaction();
        }
        r
    }

    /// Leaves a failed call: as a revert, its logs stay and its deletions and
    /// ledger changes but for nonces are undone; fails at the root frame.
    pub fn exit_discard(&mut self) -> (r: Result<(), ExitError>)
        requires
            old(self).wf(),
        ensures
            final(self).wf(),
            r is Ok <==> old(self).frames().len() >= 2,
            r is Ok ==> final(self).frames() == revert_spec(old(self).frames())->Some_0,
            r is Ok ==> final(self).ledger_view() == (LedgerView {
                accounts: keep_nonces(
                    old(self).ledger_view().saved.last(),
                    old(self).ledger_view().accounts,
                ),
                saved: old(self).ledger_view().saved.drop_last(),
                ..old(self).ledger_view()
            }),
            r is Err ==> final(self).frames() == old(self).frames() && final(self).ledger_view()
                == old(self).ledger_view(),
            final(self).vicinity() == old(self).vicinity(),
            final(self).tx_context() == old(self).tx_context(),
            final(self).env() == old(self).env(),
    {
        let r = self.substate.exit_discard();
        if r.is_ok() {
            self.ledger.rollback_transaction();
        }
        r
    }

    pub fn deleted(&self, address: H160) -> (r: bool)
        ensures
            r == deleted_spec(self.frames(), address),
    {
        self.substate.deleted(address)
    }

    pub fn set_deleted(&mut self, address: H160)
        requires
            old(self).wf(),
        ensures
            final(self).wf(),
            final(self).frames() == set_deleted_spec(old(self).frames(), address),
            final(self).ledger_view() == old(self).ledger_view(),
            final(self).vicinity() == old(self).vicinity(),
            final(self).tx_context() == old(self).tx_context(),
            final(self).env() == old(self).env(),
    {
        self.substate.set_deleted(address);
    }

    pub fn log(&mut self, address: H160, topics: Vec<H256>, data: Vec<u8>)
        requires
            old(self).wf(),
        ensures
            final(self).wf(),
            final(self).frames() == log_spec(
                old(self).frames(),
                LogView { address, topics: topics@, data: data@ },
            ),
            final(self).ledger_view() == old(self).ledger_view(),
            final(self).vicinity() == old(self).vicinity(),
            final(self).tx_context() == old(self).tx_context(),
            final(self).env() == old(self).env(),
    {
        self.substate.log(address, topics, data);
    }

    /// Every address exists: empty and absent accounts are one concept here.
    pub fn host_account_exists(&self, address: H160) -> (r: bool)
        ensures
            r,
    {
        true
    }

    pub fn get_storage(&self, address: H160, key: H256) -> (r: H256)
        requires
            self.wf(),
        ensures
            r.bytes@ == slot_in(account_in(self.ledger_view().accounts, address).storage, key),
    {
        self.ledger.storage(address, key)
    }

    /// Storage write from the secondary machine: as `set_storage`, reported as a
    /// modification.
    pub fn host_set_storage(&mut self, address: H160, key: H256, value: H256) -> (r: StorageStatus)
        requires
            old(self).wf(),
        ensures
            r == StorageStatus::EVMC_STORAGE_MODIFIED,
            final(self).wf(),
            final(self).frames() == old(self).frames(),
            final(self).vicinity() == old(self).vicinity(),
            final(self).tx_context() == old(self).tx_context(),
            final(self).env() == old(self).env(),
            final(self).ledger_view() == with_accounts(
                old(self).ledger_view(),
                old(self).ledger_view().accounts.insert(
                    address,
                    with_storage(
                        account_in(old(self).ledger_view().accounts, address),
                        if is_zero_word(value) {
                            account_in(old(self).ledger_view().accounts, address).storage.remove(key)
                        } else {
                            account_in(old(self).ledger_view().accounts, address).storage.insert(
                                key,
                                value,
                            )
                        },
                    ),
                ),
            ),
    {
        self.set_storage(address, key, value);
        StorageStatus::EVMC_STORAGE_MODIFIED
    }

    pub fn get_balance(&self, address: H160) -> (r: U256)
        requires
            self.wf(),
        ensures
            r.value() == account_in(self.ledger_view().accounts, address).balance,
    {
        self.ledger.basic(address).balance
    }

    pub fn get_code_size(&self, address: H160) -> (r: usize)
        requires
            self.wf(),
        ensures
            r == account_in(self.ledger_view().accounts, address).code.len(),
    {
        self.ledger.code(address).len()
    }

    /// Keccak-256 digest of the code at `address`.
    pub fn get_code_hash(&self, address: H160) -> (r: H256)
        requires
            self.wf(),
        ensures
            r.bytes@ == keccak256_of(account_in(self.ledger_view().accounts, address).code),
    {
        let code = self.ledger.code(address);
        keccak256(code.as_slice())
    }

    /// Code is not copied out to the secondary machine: nothing is written.
    pub fn copy_code(&self, address: H160, offset: usize, buffer_size: usize) -> (r: usize)
        ensures
            r == 0,
    {
        0
    }

    /// Self-destruction from the secondary machine has no effect.
    pub fn selfdestruct(&mut self, address: H160, beneficiary: H160)
        ensures
            *final(self) == *old(self),
    {
    }

    pub fn get_tx_context(&self) -> (r: Option<TxContext>)
        ensures
            r == self.tx_context(),
    {
        self.tx_context
    }

    /// Hash of block `block_number`; zero when it is negative, does not fit in
    /// 32 bits, or the block is unknown.
    pub fn get_block_hash(&self, block_number: i64) -> (r: H256)
        ensures
            (0 <= block_number < 0x1_0000_0000 && block_number < self.ledger_view().block_hashes.len())
                ==> r == self.ledger_view().block_hashes[block_number as int],
            !(0 <= block_number < 0x1_0000_0000 && block_number < self.ledger_view().block_hashes.len())
                ==> r.bytes@ == zero_word(),
    {
        if block_number < 0 || block_number > 0xffff_ffff {
            let z = H256::zero();
            assert(z.bytes@ =~= zero_word());
            z
        } else {
            self.ledger.block_hash(block_number as u32)
        }
    }

    /// Log emission from the secondary machine, into the current frame.
    pub fn emit_log(&mut self, address: H160, topics: Vec<H256>, data: Vec<u8>)
        requires
            old(self).wf(),
        ensures
            final(self).wf(),
            final(self).frames() == log_spec(
                old(self).frames(),
                LogView { address, topics: topics@, data: data@ },
            ),
            final(self).ledger_view() == old(self).ledger_view(),
            final(self).vicinity() == old(self).vicinity(),
            final(self).tx_context() == old(self).tx_context(),
            final(self).env() == old(self).env(),
    {
        self.substate.log(address, topics, data);
    }

    /// The ledger, to be changed in place by settlement.
    pub(crate) fn ledger_mut(&mut self) -> (r: &mut Ledger)
        ensures
            r@ == old(self).ledger_view(),
            old(self).wf() ==> r.wf(),
            final(self).ledger_view() == final(r)@,
            final(self).frames() == old(self).frames(),
            final(self).vicinity() == old(self).vicinity(),
            final(self).tx_context() == old(self).tx_context(),
            final(self).env() == old(self).env(),
            (old(self).wf() && final(r).wf() && final(r)@.saved.len()
                == old(self).ledger_view().saved.len()) ==> final(self).wf(),
    {
        &mut self.ledger
    }

    /// Takes `value` from `source`; fails with `OutOfFund`, changing nothing,
    /// when it holds less.
    pub fn withdrawal(&mut self, source: H160, value: U256) -> (r: Result<(), ExitError>)
        requires
            old(self).wf(),
        ensures
            final(self).wf(),
            final(self).frames() == old(self).frames(),
            final(self).vicinity() == old(self).vicinity(),
            final(self).tx_context() == old(self).tx_context(),
            final(self).env() == old(self).env(),
            r is Ok <==> account_in(old(self).ledger_view().accounts, source).balance >= value.value(),
            r is Ok ==> final(self).ledger_view() == with_accounts(
                old(self).ledger_view(),
                old(self).ledger_view().accounts.insert(
                    source,
                    with_balance(
                        account_in(old(self).ledger_view().accounts, source),
                        (account_in(old(self).ledger_view().accounts, source).balance - value.value()) as nat,
                    ),
                ),
            ),
            r is Err ==> r == Err::<(), ExitError>(ExitError::OutOfFund) && final(self).ledger_view()
                == old(self).ledger_view(),
    {
        if self.ledger.withdraw(source, value) {
            Ok(())
        } else {
            Err(ExitError::OutOfFund)
        }
    }

    /// Adds `value` to `target` when the balance then fits in 256 bits;
    /// otherwise changes nothing.
    pub fn deposit(&mut self, target: H160, value: U256) -> (r: bool)
        requires
            old(self).wf(),
        ensures
            final(self).wf(),
            final(self).frames() == old(self).frames(),
            final(self).vicinity() == old(self).vicinity(),
            final(self).tx_context() == old(self).tx_context(),
            final(self).env() == old(self).env(),
            r == (account_in(old(self).ledger_view().accounts, target).balance + value.value()
                < u256_modulus()),
            r ==> final(self).ledger_view() == with_accounts(
                old(self).ledger_view(),
                old(self).ledger_view().accounts.insert(
                    target,
                    with_balance(
                        account_in(old(self).ledger_view().accounts, target),
                        account_in(old(self).ledger_view().accounts, target).balance + value.value(),
                    ),
                ),
            ),
            !r ==> final(self).ledger_view() == old(self).ledger_view(),
    {
        self.ledger.deposit(target, value)
    }
}

} // verus!
