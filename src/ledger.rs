//! An in-memory ledger of accounts with nested transactions.

use vstd::prelude::*;

use crate::keyed::{
    keyed_has, keyed_map, keyed_unique, lemma_keyed_at, lemma_keyed_push, lemma_keyed_swap_remove,
    lemma_keyed_update,
};
use crate::outcome::{copy_bytes, log_views, ExitError, Log, LogView};
use crate::types::{u256_checked_add, u256_ge, u256_modulus, u256_saturating_sub, H160, H256, U256};

verus! {

/// One storage slot of an account.
#[derive(Clone, Copy, Debug, PartialEq, Eq)]
pub struct StorageEntry {
    pub key: H256,
    pub value: H256,
}

/// One account of the ledger: balance, nonce, code and storage slots (each key once).
#[derive(Debug)]
pub struct AccountEntry {
    pub address: H160,
    pub balance: U256,
    pub nonce: U256,
    pub code: Vec<u8>,
    pub storage: Vec<StorageEntry>,
}

/// What an account holds, as the contracts see it.
pub struct AccountView {
    pub balance: nat,
    pub nonce: nat,
    pub code: Seq<u8>,
    pub storage: Map<H256, H256>,
}

/// Balance and nonce of an account.
#[derive(Clone, Copy, Debug, PartialEq, Eq)]
pub struct Basic {
    pub balance: U256,
    pub nonce: U256,
}

/// The account that every address has before anything is written to it.
pub open spec fn empty_account() -> AccountView {
    AccountView { balance: 0, nonce: 0, code: Seq::empty(), storage: Map::empty() }
}

pub open spec fn slot_key() -> spec_fn(StorageEntry) -> H256 {
    |e: StorageEntry| e.key
}

pub open spec fn slot_value() -> spec_fn(StorageEntry) -> H256 {
    |e: StorageEntry| e.value
}

pub open spec fn account_key() -> spec_fn(AccountEntry) -> H160 {
    |e: AccountEntry| e.address
}

pub open spec fn account_value() -> spec_fn(AccountEntry) -> AccountView {
    |e: AccountEntry| entry_view(e)
}

pub open spec fn entry_view(e: AccountEntry) -> AccountView {
    AccountView {
        balance: e.balance.value(),
        nonce: e.nonce.value(),
        code: e.code@,
        storage: keyed_map(e.storage@, slot_key(), slot_value()),
    }
}

/// Accounts as a map from address to what each holds.
pub open spec fn accounts_map(s: Seq<AccountEntry>) -> Map<H160, AccountView> {
    keyed_map(s, account_key(), account_value())
}

pub open spec fn accounts_wf(s: Seq<AccountEntry>) -> bool {
    &&& keyed_unique(s, account_key())
    &&& forall|i: int| 0 <= i < s.len() ==> keyed_unique((#[trigger] s[i]).storage@, slot_key())
}

/// What `address` holds in a map of accounts.
pub open spec fn account_in(m: Map<H160, AccountView>, address: H160) -> AccountView {
    if m.contains_key(address) {
        m[address]
    } else {
        empty_account()
    }
}

/// Thirty-two zero bytes.
pub open spec fn zero_word() -> Seq<u8> {
    Seq::new(32, |i: int| 0u8)
}

/// The value of a storage slot; zero when the slot was never written.
pub open spec fn slot_in(storage: Map<H256, H256>, key: H256) -> Seq<u8> {
    if storage.contains_key(key) {
        storage[key].bytes@
    } else {
        zero_word()
    }
}

/// `v` with its code replaced.
pub open spec fn with_code(v: AccountView, code: Seq<u8>) -> AccountView {
    AccountView { balance: v.balance, nonce: v.nonce, code, storage: v.storage }
}

/// `v` with its storage replaced.
pub open spec fn with_storage(v: AccountView, storage: Map<H256, H256>) -> AccountView {
    AccountView { balance: v.balance, nonce: v.nonce, code: v.code, storage }
}

/// `v` with its balance replaced.
pub open spec fn with_balance(v: AccountView, balance: nat) -> AccountView {
    AccountView { balance, nonce: v.nonce, code: v.code, storage: v.storage }
}

/// `v` with its nonce replaced.
pub open spec fn with_nonce(v: AccountView, nonce: nat) -> AccountView {
    AccountView { balance: v.balance, nonce, code: v.code, storage: v.storage }
}

/// What the ledger holds, as the contracts see it.
pub struct LedgerView {
    pub accounts: Map<H160, AccountView>,
    pub saved: Seq<Map<H160, AccountView>>,
    pub block_hashes: Seq<H256>,
    pub events: Seq<LogView>,
}

/// An in-memory ledger: accounts, the hashes of past blocks, the event stream,
/// and the account states saved by the open nested transactions.
pub struct Ledger {
    accounts: Vec<AccountEntry>,
    saved: Vec<Vec<AccountEntry>>,
    block_hashes: Vec<H256>,
    events: Vec<Log>,
}

/// The accounts of `restored`, each with the nonce that `current` holds for it:
/// what a rollback leaves, since nonces are not rolled back.
pub open spec fn keep_nonces(restored: Map<H160, AccountView>, current: Map<H160, AccountView>) -> Map<
    H160,
    AccountView,
> {
    Map::new(
        |a: H160| restored.contains_key(a) || current.contains_key(a),
        |a: H160|
            if current.contains_key(a) {
                with_nonce(account_in(restored, a), current[a].nonce)
            } else {
                restored[a]
            },
    )
}

/// A rollback keeps every nonce: each account's nonce after it is the nonce
/// the account had before it.
pub proof fn lemma_rollback_keeps_nonces(
    restored: Map<H160, AccountView>,
    current: Map<H160, AccountView>,
    address: H160,
)
    ensures
        current.contains_key(address) ==> account_in(keep_nonces(restored, current), address).nonce
            == account_in(current, address).nonce,
        !current.contains_key(address) ==> account_in(keep_nonces(restored, current), address)
            == account_in(restored, address),
{
}

/// The ledger after the nonce of `address` is bumped; a nonce at the largest
/// value stays there.
pub open spec fn nonce_bumped(l: LedgerView, address: H160) -> LedgerView {
    if account_in(l.accounts, address).nonce + 1 < u256_modulus() {
        with_accounts(
            l,
            l.accounts.insert(
                address,
                with_nonce(account_in(l.accounts, address), account_in(l.accounts, address).nonce + 1),
            ),
        )
    } else {
        l
    }
}

impl View for Ledger {
    type V = LedgerView;

    closed spec fn view(&self) -> LedgerView {
        LedgerView {
            accounts: accounts_map(self.accounts@),
            saved: self.saved@.map_values(|v: Vec<AccountEntry>| accounts_map(v@)),
            block_hashes: self.block_hashes@,
            events: log_views(self.events@),
        }
    }
}

/// A copy of a list of storage slots.
fn copy_slots(v: &Vec<StorageEntry>) -> (r: Vec<StorageEntry>)
    ensures
        r@ == v@,
{
    let mut r: Vec<StorageEntry> = Vec::new();
    let mut i: usize = 0;
    while i < v.len()
        invariant
            i <= v@.len(),
            r@ == v@.subrange(0, i as int),
        decreases v@.len() - i,
    {
        r.push(v[i]);
        i = i + 1;
        assert(r@ =~= v@.subrange(0, i as int));
    }
    assert(v@.subrange(0, v@.len() as int) =~= v@);
    r
}

/// Two account entries hold the same address and contents.
pub open spec fn same_entry(a: AccountEntry, b: AccountEntry) -> bool {
    &&& a.address == b.address
    &&& a.balance == b.balance
    &&& a.nonce == b.nonce
    &&& a.code@ == b.code@
    &&& a.storage@ == b.storage@
}

impl AccountEntry {
    /// A copy of the account.
    fn copy(&self) -> (r: AccountEntry)
        ensures
            same_entry(r, *self),
    {
        AccountEntry {
            address: self.address,
            balance: self.balance,
            nonce: self.nonce,
            code: copy_bytes(&self.code),
            storage: copy_slots(&self.storage),
        }
    }
}

/// A copy of a list of accounts.
fn copy_accounts(v: &Vec<AccountEntry>) -> (r: Vec<AccountEntry>)
    ensures
        r@.len() == v@.len(),
        forall|i: int| 0 <= i < v@.len() ==> same_entry(#[trigger] r@[i], v@[i]),
{
    let mut r: Vec<AccountEntry> = Vec::new();
    let mut i: usize = 0;
    while i < v.len()
        invariant
            i <= v@.len(),
            r@.len() == i,
            forall|j: int| 0 <= j < i ==> same_entry(#[trigger] r@[j], v@[j]),
        decreases v@.len() - i,
    {
        let e = v[i].copy();
        r.push(e);
        i = i + 1;
    }
    r
}

/// Entry by entry copies hold the same accounts.
proof fn lemma_copy_same_map(a: Seq<AccountEntry>, b: Seq<AccountEntry>)
    requires
        accounts_wf(a),
        a.len() == b.len(),
        forall|i: int| 0 <= i < a.len() ==> same_entry(#[trigger] b[i], a[i]),
    ensures
        accounts_map(a) == accounts_map(b),
        accounts_wf(b),
{
    assert forall|i: int, j: int|
        0 <= i < b.len() && 0 <= j < b.len() && #[trigger] account_key()(b[i]) == #[trigger] account_key()(
            b[j],
        ) implies i == j by {
        assert(same_entry(b[i], a[i]));
        assert(same_entry(b[j], a[j]));
        assert(account_key()(a[i]) == account_key()(a[j]));
    }
    assert forall|i: int| 0 <= i < b.len() implies keyed_unique((#[trigger] b[i]).storage@, slot_key()) by {
        assert(same_entry(b[i], a[i]));
        assert(keyed_unique(a[i].storage@, slot_key()));
    }
    assert forall|x: H160| #[trigger] accounts_map(a).contains_key(x) <==> accounts_map(b).contains_key(x) by {
        if keyed_has(a, account_key(), x) {
            let i = choose|i: int| 0 <= i < a.len() && #[trigger] account_key()(a[i]) == x;
            assert(same_entry(b[i], a[i]));
            assert(account_key()(b[i]) == x);
        }
        if keyed_has(b, account_key(), x) {
            let i = choose|i: int| 0 <= i < b.len() && #[trigger] account_key()(b[i]) == x;
            assert(same_entry(b[i], a[i]));
            assert(account_key()(a[i]) == x);
        }
    }
    assert forall|x: H160| #[trigger] accounts_map(a).contains_key(x) implies accounts_map(a)[x]
        == accounts_map(b)[x] by {
        let i = choose|i: int| 0 <= i < a.len() && #[trigger] account_key()(a[i]) == x;
        lemma_keyed_at(a, account_key(), account_value(), i);
        assert(same_entry(b[i], a[i]));
        lemma_keyed_at(b, account_key(), account_value(), i);
        assert(entry_view(a[i]) == entry_view(b[i]));
    }
    assert(accounts_map(a) =~= accounts_map(b));
}

/// Replacing an entry by one for the same address keeps the accounts well formed
/// and updates that address.
proof fn lemma_replace_entry(s: Seq<AccountEntry>, i: int, e: AccountEntry)
    requires
        accounts_wf(s),
        0 <= i < s.len(),
        e.address == s[i].address,
        keyed_unique(e.storage@, slot_key()),
    ensures
        accounts_wf(s.update(i, e)),
        accounts_map(s.update(i, e)) == accounts_map(s).insert(e.address, entry_view(e)),
{
    lemma_keyed_update(s, account_key(), account_value(), i, e);
    let t = s.update(i, e);
    assert forall|j: int| 0 <= j < t.len() implies keyed_unique((#[trigger] t[j]).storage@, slot_key()) by {
        if j != i {
            assert(t[j] == s[j]);
        }
    }
}

/// The ledger view with its accounts replaced.
pub open spec fn with_accounts(v: LedgerView, accounts: Map<H160, AccountView>) -> LedgerView {
    LedgerView { accounts, saved: v.saved, block_hashes: v.block_hashes, events: v.events }
}

/// Index of the slot `key`, if there is one.
fn find_slot(slots: &Vec<StorageEntry>, key: &H256) -> (r: Option<usize>)
    ensures
        r matches Some(j) ==> j < slots@.len() && slots@[j as int].key == *key,
        r is None ==> !keyed_has(slots@, slot_key(), *key),
{
    let mut j: usize = 0;
    while j < slots.len()
        invariant
            j <= slots@.len(),
            forall|m: int| 0 <= m < j ==> (#[trigger] slots@[m]).key != *key,
        decreases slots@.len() - j,
    {
        if slots[j].key.same(key) {
            return Some(j);
        }
        j = j + 1;
    }
    assert(!keyed_has(slots@, slot_key(), *key)) by {
        if keyed_has(slots@, slot_key(), *key) {
            let m = choose|m: int| 0 <= m < slots@.len() && #[trigger] slot_key()(slots@[m]) == *key;
            assert(slots@[m].key != *key);
        }
    }
    None
}

/// Writes `value` into the slot `key`.
fn slots_insert(slots: &mut Vec<StorageEntry>, key: H256, value: H256)
    requires
        keyed_unique(old(slots)@, slot_key()),
    ensures
        keyed_unique(final(slots)@, slot_key()),
        keyed_map(final(slots)@, slot_key(), slot_value()) == keyed_map(
            old(slots)@,
            slot_key(),
            slot_value(),
        ).insert(key, value),
{
    let e = StorageEntry { key, value };
    let ghost s = slots@;
    match find_slot(slots, &key) {
        Some(j) => {
            proof {
                lemma_keyed_update(s, slot_key(), slot_value(), j as int, e);
            }
            slots.set(j, e);
        },
        None => {
            proof {
                lemma_keyed_push(s, slot_key(), slot_value(), e);
            }
            slots.push(e);
        },
    }
}

/// Removes the slot `key`, if there is one.
fn slots_remove(slots: &mut Vec<StorageEntry>, key: H256)
    requires
        keyed_unique(old(slots)@, slot_key()),
    ensures
        keyed_unique(final(slots)@, slot_key()),
        keyed_map(final(slots)@, slot_key(), slot_value()) == keyed_map(
            old(slots)@,
            slot_key(),
            slot_value(),
        ).remove(key),
{
    let ghost s = slots@;
    match find_slot(slots, &key) {
        Some(j) => {
            proof {
                lemma_keyed_swap_remove(s, slot_key(), slot_value(), j as int);
            }
            slots.swap_remove(j);
        },
        None => {
            assert(keyed_map(s, slot_key(), slot_value()).remove(key) =~= keyed_map(
                s,
                slot_key(),
                slot_value(),
            ));
        },
    }
}

impl Ledger {
    pub closed spec fn wf(&self) -> bool {
        &&& accounts_wf(self.accounts@)
        &&& forall|i: int| 0 <= i < self.saved@.len() ==> accounts_wf((#[trigger] self.saved@[i])@)
    }

    /// An empty ledger whose past blocks have the given hashes, block `n` at index `n`.
    pub fn new(block_hashes: Vec<H256>) -> (r: Ledger)
        ensures
            r.wf(),
            r@.accounts == Map::<H160, AccountView>::empty(),
            r@.saved == Seq::<Map<H160, AccountView>>::empty(),
            r@.block_hashes == block_hashes@,
            r@.events == Seq::<LogView>::empty(),
    {
        let r = Ledger { accounts: Vec::new(), saved: Vec::new(), block_hashes, events: Vec::new() };
        assert(r@.events =~= Seq::<LogView>::empty());
        assert(accounts_map(r.accounts@) =~= Map::empty());
        assert(r@.saved =~= Seq::<Map<H160, AccountView>>::empty());
        r
    }

    /// Index of the entry of `address`, if there is one.
    fn find(&self, address: &H160) -> (r: Option<usize>)
        ensures
            r matches Some(i) ==> i < self.accounts@.len() && self.accounts@[i as int].address
                == *address,
            r is None ==> !keyed_has(self.accounts@, account_key(), *address),
    {
        let mut i: usize = 0;
        while i < self.accounts.len()
            invariant
                i <= self.accounts@.len(),
                forall|j: int| 0 <= j < i ==> (#[trigger] self.accounts@[j]).address != *address,
            decreases self.accounts@.len() - i,
        {
            if self.accounts[i].address.same(address) {
                return Some(i);
            }
            i = i + 1;
        }
        assert(!keyed_has(self.accounts@, account_key(), *address)) by {
            if keyed_has(self.accounts@, account_key(), *address) {
                let j = choose|j: int|
                    0 <= j < self.accounts@.len() && #[trigger] account_key()(self.accounts@[j])
                        == *address;
                assert(self.accounts@[j].address != *address);
            }
        }
        None
    }

    /// What `address` holds, read through its entry or as the empty account.
    proof fn lemma_lookup(&self, address: H160, r: Option<usize>)
        requires
            self.wf(),
            r matches Some(i) ==> i < self.accounts@.len() && self.accounts@[i as int].address
                == address,
            r is None ==> !keyed_has(self.accounts@, account_key(), address),
        ensures
            r matches Some(i) ==> entry_view(self.accounts@[i as int]) == account_in(
                self@.accounts,
                address,
            ),
            r matches Some(i) ==> keyed_unique(self.accounts@[i as int].storage@, slot_key()),
            r is Some ==> self@.accounts.contains_key(address),
            r is None ==> account_in(self@.accounts, address) == empty_account(),
    {
        if let Some(i) = r {
            lemma_keyed_at(self.accounts@, account_key(), account_value(), i as int);
        }
    }

    /// Index of the entry of `address`, added empty if there was none.
    fn entry_index(&mut self, address: H160) -> (i: usize)
        requires
            old(self).wf(),
        ensures
            final(self).wf(),
            i < final(self).accounts@.len(),
            final(self).accounts@[i as int].address == address,
            entry_view(final(self).accounts@[i as int]) == account_in(old(self)@.accounts, address),
            final(self)@ == with_accounts(
                old(self)@,
                old(self)@.accounts.insert(address, account_in(old(self)@.accounts, address)),
            ),
    {
        let found = self.find(&address);
        proof {
            self.lemma_lookup(address, found);
        }
        match found {
            Some(i) => {
                assert(old(self)@.accounts.insert(address, account_in(old(self)@.accounts, address))
                    =~= old(self)@.accounts);
                i
            },
            None => {
                let ghost s = self.accounts@;
                let e = AccountEntry {
                    address,
                    balance: U256::zero(),
                    nonce: U256::zero(),
                    code: Vec::new(),
                    storage: Vec::new(),
                };
                proof {
                    lemma_keyed_push(s, account_key(), account_value(), e);
                    assert(entry_view(e).storage =~= Map::<H256, H256>::empty());
                    assert(entry_view(e).code =~= Seq::<u8>::empty());
                }
                self.accounts.push(e);
                assert forall|j: int| 0 <= j < self.accounts@.len() implies keyed_unique(
                    (#[trigger] self.accounts@[j]).storage@,
                    slot_key(),
                ) by {
                    if j < s.len() {
                        assert(self.accounts@[j] == s[j]);
                    }
                }
                assert(self@ =~= with_accounts(
                    old(self)@,
                    old(self)@.accounts.insert(address, account_in(old(self)@.accounts, address)),
                ));
                self.accounts.len() - 1
            },
        }
    }

    /// Balance and nonce of `address`.
    pub fn basic(&self, address: H160) -> (r: Basic)
        requires
            self.wf(),
        ensures
            r.balance.value() == account_in(self@.accounts, address).balance,
            r.nonce.value() == account_in(self@.accounts, address).nonce,
    {
        let found = self.find(&address);
        proof {
            self.lemma_lookup(address, found);
        }
        match found {
            Some(i) => Basic { balance: self.accounts[i].balance, nonce: self.accounts[i].nonce },
            None => Basic { balance: U256::zero(), nonce: U256::zero() },
        }
    }

    /// Code of `address`; empty when none was installed.
    pub fn code(&self, address: H160) -> (r: Vec<u8>)
        requires
            self.wf(),
        ensures
            r@ == account_in(self@.accounts, address).code,
    {
        let found = self.find(&address);
        proof {
            self.lemma_lookup(address, found);
        }
        match found {
            Some(i) => copy_bytes(&self.accounts[i].code),
            None => Vec::new(),
        }
    }

    /// Value of the storage slot `key` of `address`; zero when never written.
    pub fn storage(&self, address: H160, key: H256) -> (r: H256)
        requires
            self.wf(),
        ensures
            r.bytes@ == slot_in(account_in(self@.accounts, address).storage, key),
    {
        let found = self.find(&address);
        proof {
            self.lemma_lookup(address, found);
        }
        match found {
            Some(i) => {
                let slots = &self.accounts[i].storage;
                let mut j: usize = 0;
                while j < slots.len()
                    invariant
                        j <= slots@.len(),
                        keyed_unique(slots@, slot_key()),
                        account_in(self@.accounts, address).storage == keyed_map(
                            slots@,
                            slot_key(),
                            slot_value(),
                        ),
                        forall|m: int| 0 <= m < j ==> (#[trigger] slots@[m]).key != key,
                    decreases slots@.len() - j,
                {
                    if slots[j].key.same(&key) {
                        proof {
                            lemma_keyed_at(slots@, slot_key(), slot_value(), j as int);
                        }
                        return slots[j].value;
                    }
                    j = j + 1;
                }
                let z = H256::zero();
                assert(!keyed_has(slots@, slot_key(), key)) by {
                    if keyed_has(slots@, slot_key(), key) {
                        let m = choose|m: int| 0 <= m < slots@.len() && #[trigger] slot_key()(slots@[m]) == key;
                        assert(slots@[m].key != key);
                    }
                }
                assert(z.bytes@ =~= zero_word());
                z
            },
            None => {
                let z = H256::zero();
                assert(z.bytes@ =~= zero_word());
                z
            },
        }
    }

    /// Installs `code` at `address`.
    pub fn set_code(&mut self, address: H160, code: Vec<u8>)
        requires
            old(self).wf(),
        ensures
            final(self).wf(),
            final(self)@ == with_accounts(
                old(self)@,
                old(self)@.accounts.insert(
                    address,
                    with_code(account_in(old(self)@.accounts, address), code@),
                ),
            ),
    {
        let ghost c = code@;
        let i = self.entry_index(address);
        let ghost s = self.accounts@;
        self.accounts[i].code = code;
        proof {
            lemma_replace_entry(s, i as int, self.accounts@[i as int]);
            assert(entry_view(self.accounts@[i as int]) == with_code(account_in(old(self)@.accounts, address), c));
            assert(accounts_map(self.accounts@) == accounts_map(s).insert(address, with_code(account_in(old(self)@.accounts, address), c)));
            assert(accounts_map(s) == old(self)@.accounts.insert(address, account_in(old(self)@.accounts, address)));
        }
        assert(self@.accounts =~= old(self)@.accounts.insert(
            address,
            with_code(account_in(old(self)@.accounts, address), c),
        ));
    }

    /// Replaces the entry at `i`, which is the entry of `address`, and states
    /// what the accounts become.
    proof fn lemma_after_replace(
        old_view: LedgerView,
        s: Seq<AccountEntry>,
        t: Seq<AccountEntry>,
        i: int,
        address: H160,
        v: AccountView,
    )
        requires
            accounts_wf(s),
            0 <= i < s.len(),
            s[i].address == address,
            t == s.update(i, t[i]),
            t.len() == s.len(),
            t[i].address == address,
            keyed_unique(t[i].storage@, slot_key()),
            entry_view(t[i]) == v,
            accounts_map(s) == old_view.accounts.insert(address, account_in(old_view.accounts, address)),
        ensures
            accounts_wf(t),
            accounts_map(t) == old_view.accounts.insert(address, v),
    {
        lemma_replace_entry(s, i, t[i]);
        assert(s.update(i, t[i]) == t);
        assert(accounts_map(t) =~= old_view.accounts.insert(address, v));
    }

    /// Writes `value` into the storage slot `key` of `address`.
    pub fn set_storage(&mut self, address: H160, key: H256, value: H256)
        requires
            old(self).wf(),
        ensures
            final(self).wf(),
            final(self)@ == with_accounts(
                old(self)@,
                old(self)@.accounts.insert(
                    address,
                    with_storage(
                        account_in(old(self)@.accounts, address),
                        account_in(old(self)@.accounts, address).storage.insert(key, value),
                    ),
                ),
            ),
    {
        let i = self.entry_index(address);
        let ghost s = self.accounts@;
        slots_insert(&mut self.accounts[i].storage, key, value);
        proof {
            Self::lemma_after_replace(
                old(self)@,
                s,
                self.accounts@,
                i as int,
                address,
                with_storage(
                    account_in(old(self)@.accounts, address),
                    account_in(old(self)@.accounts, address).storage.insert(key, value),
                ),
            );
        }
        assert(self@.accounts == old(self)@.accounts.insert(
            address,
            with_storage(
                account_in(old(self)@.accounts, address),
                account_in(old(self)@.accounts, address).storage.insert(key, value),
            ),
        ));
    }

    /// Removes the storage slot `key` of `address`.
    pub fn remove_storage(&mut self, address: H160, key: H256)
        requires
            old(self).wf(),
        ensures
            final(self).wf(),
            final(self)@ == with_accounts(
                old(self)@,
                old(self)@.accounts.insert(
                    address,
                    with_storage(
                        account_in(old(self)@.accounts, address),
                        account_in(old(self)@.accounts, address).storage.remove(key),
                    ),
                ),
            ),
    {
        let i = self.entry_index(address);
        let ghost s = self.accounts@;
        slots_remove(&mut self.accounts[i].storage, key);
        proof {
            Self::lemma_after_replace(
                old(self)@,
                s,
                self.accounts@,
                i as int,
                address,
                with_storage(
                    account_in(old(self)@.accounts, address),
                    account_in(old(self)@.accounts, address).storage.remove(key),
                ),
            );
        }
        assert(self@.accounts == old(self)@.accounts.insert(
            address,
            with_storage(
                account_in(old(self)@.accounts, address),
                account_in(old(self)@.accounts, address).storage.remove(key),
            ),
        ));
    }

    /// Clears every storage slot of `address`.
    pub fn reset_storage(&mut self, address: H160)
        requires
            old(self).wf(),
        ensures
            final(self).wf(),
            final(self)@ == with_accounts(
                old(self)@,
                old(self)@.accounts.insert(
                    address,
                    with_storage(account_in(old(self)@.accounts, address), Map::empty()),
                ),
            ),
    {
        let i = self.entry_index(address);
        let ghost s = self.accounts@;
        self.accounts[i].storage = Vec::new();
        proof {
            assert(keyed_map(self.accounts@[i as int].storage@, slot_key(), slot_value()) =~= Map::<
                H256,
                H256,
            >::empty());
            Self::lemma_after_replace(
                old(self)@,
                s,
                self.accounts@,
                i as int,
                address,
                with_storage(account_in(old(self)@.accounts, address), Map::empty()),
            );
        }
        assert(self@.accounts == old(self)@.accounts.insert(
            address,
            with_storage(account_in(old(self)@.accounts, address), Map::empty()),
        ));
    }

    /// Removes the contract held at `address`: its code and its storage. Balance
    /// and nonce stay with the account.
    pub fn remove_account(&mut self, address: H160)
        requires
            old(self).wf(),
        ensures
            final(self).wf(),
            final(self)@ == with_accounts(
                old(self)@,
                old(self)@.accounts.insert(
                    address,
                    with_storage(
                        with_code(account_in(old(self)@.accounts, address), Seq::empty()),
                        Map::empty(),
                    ),
                ),
            ),
    {
        let i = self.entry_index(address);
        let ghost s = self.accounts@;
        self.accounts[i].storage = Vec::new();
        self.accounts[i].code = Vec::new();
        proof {
            assert(keyed_map(self.accounts@[i as int].storage@, slot_key(), slot_value()) =~= Map::<
                H256,
                H256,
            >::empty());
            assert(self.accounts@[i as int].code@ =~= Seq::<u8>::empty());
            assert(self.accounts@ =~= s.update(i as int, self.accounts@[i as int]));
            Self::lemma_after_replace(
                old(self)@,
                s,
                self.accounts@,
                i as int,
                address,
                with_storage(
                    with_code(account_in(old(self)@.accounts, address), Seq::empty()),
                    Map::empty(),
                ),
            );
        }
        assert(self@.accounts == old(self)@.accounts.insert(
            address,
            with_storage(
                with_code(account_in(old(self)@.accounts, address), Seq::empty()),
                Map::empty(),
            ),
        ));
    }

    /// Sets the balance of `address`.
    fn set_balance(&mut self, address: H160, balance: U256)
        requires
            old(self).wf(),
        ensures
            final(self).wf(),
            final(self)@ == with_accounts(
                old(self)@,
                old(self)@.accounts.insert(
                    address,
                    with_balance(account_in(old(self)@.accounts, address), balance.value()),
                ),
            ),
    {
        let i = self.entry_index(address);
        let ghost s = self.accounts@;
        self.accounts[i].balance = balance;
        proof {
            Self::lemma_after_replace(
                old(self)@,
                s,
                self.accounts@,
                i as int,
                address,
                with_balance(account_in(old(self)@.accounts, address), balance.value()),
            );
        }
        assert(self@.accounts == old(self)@.accounts.insert(
            address,
            with_balance(account_in(old(self)@.accounts, address), balance.value()),
        ));
    }

    /// Adds one to the nonce of `address`; a nonce at the largest value stays there.
    pub fn inc_nonce(&mut self, address: H160)
        requires
            old(self).wf(),
        ensures
            final(self).wf(),
            account_in(old(self)@.accounts, address).nonce + 1 < u256_modulus() ==> final(self)@
                == with_accounts(
                old(self)@,
                old(self)@.accounts.insert(
                    address,
                    with_nonce(
                        account_in(old(self)@.accounts, address),
                        account_in(old(self)@.accounts, address).nonce + 1,
                    ),
                ),
            ),
            account_in(old(self)@.accounts, address).nonce + 1 >= u256_modulus() ==> final(self)@
                == old(self)@,
    {
        let basic = self.basic(address);
        if let Some(n) = u256_checked_add(basic.nonce, U256::from_u64(1)) {
            let i = self.entry_index(address);
            let ghost s = self.accounts@;
            self.accounts[i].nonce = n;
            proof {
                Self::lemma_after_replace(
                    old(self)@,
                    s,
                    self.accounts@,
                    i as int,
                    address,
                    with_nonce(
                        account_in(old(self)@.accounts, address),
                        account_in(old(self)@.accounts, address).nonce + 1,
                    ),
                );
            }
            assert(self@.accounts == old(self)@.accounts.insert(
                address,
                with_nonce(
                    account_in(old(self)@.accounts, address),
                    account_in(old(self)@.accounts, address).nonce + 1,
                ),
            ));
        }
    }

    /// Takes `amount` from the balance of `address` when it holds that much;
    /// otherwise changes nothing.
    pub fn withdraw(&mut self, address: H160, amount: U256) -> (r: bool)
        requires
            old(self).wf(),
        ensures
            final(self).wf(),
            r == (account_in(old(self)@.accounts, address).balance >= amount.value()),
            r ==> final(self)@ == with_accounts(
                old(self)@,
                old(self)@.accounts.insert(
                    address,
                    with_balance(
                        account_in(old(self)@.accounts, address),
                        (account_in(old(self)@.accounts, address).balance - amount.value()) as nat,
                    ),
                ),
            ),
            !r ==> final(self)@ == old(self)@,
    {
        let basic = self.basic(address);
        if !u256_ge(basic.balance, amount) {
            return false;
        }
        let b = u256_saturating_sub(basic.balance, amount);
        self.set_balance(address, b);
        true
    }

    /// Adds `amount` to the balance of `address` when the sum fits in 256 bits;
    /// otherwise changes nothing.
    pub fn deposit(&mut self, address: H160, amount: U256) -> (r: bool)
        requires
            old(self).wf(),
        ensures
            final(self).wf(),
            r == (account_in(old(self)@.accounts, address).balance + amount.value() < u256_modulus()),
            r ==> final(self)@ == with_accounts(
                old(self)@,
                old(self)@.accounts.insert(
                    address,
                    with_balance(
                        account_in(old(self)@.accounts, address),
                        account_in(old(self)@.accounts, address).balance + amount.value(),
                    ),
                ),
            ),
            !r ==> final(self)@ == old(self)@,
    {
        let basic = self.basic(address);
        match u256_checked_add(basic.balance, amount) {
            Some(b) => {
                self.set_balance(address, b);
                true
            },
            None => false,
        }
    }

    /// Hash of block `number`; zero for a block that the ledger does not know.
    pub fn block_hash(&self, number: u32) -> (r: H256)
        ensures
            (number as int) < self@.block_hashes.len() ==> r == self@.block_hashes[number as int],
            (number as int) >= self@.block_hashes.len() ==> r.bytes@ == zero_word(),
    {
        if (number as usize) < self.block_hashes.len() {
            self.block_hashes[number as usize]
        } else {
            let z = H256::zero();
            assert(z.bytes@ =~= zero_word());
            z
        }
    }

    /// Appends `log` to the event stream.
    pub fn deposit_event(&mut self, log: Log)
        requires
            old(self).wf(),
        ensures
            final(self).wf(),
            final(self)@ == (LedgerView {
                accounts: old(self)@.accounts,
                saved: old(self)@.saved,
                block_hashes: old(self)@.block_hashes,
                events: old(self)@.events.push(log@),
            }),
    {
        let ghost e = self.events@;
        let ghost lv = log@;
        self.events.push(log);
        assert(log_views(self.events@) =~= log_views(e).push(lv));
    }

    /// The event stream.
    pub fn events(&self) -> (r: &Vec<Log>)
        ensures
            log_views(r@) == self@.events,
    {
        &self.events
    }

    /// Number of open nested transactions.
    pub fn transaction_depth(&self) -> (r: usize)
        ensures
            r == self@.saved.len(),
    {
        self.saved.len()
    }

    /// Opens a nested transaction: the current accounts are saved.
    pub fn start_transaction(&mut self)
        requires
            old(self).wf(),
        ensures
            final(self).wf(),
            final(self)@ == (LedgerView {
                accounts: old(self)@.accounts,
                saved: old(self)@.saved.push(old(self)@.accounts),
                block_hashes: old(self)@.block_hashes,
                events: old(self)@.events,
            }),
    {
        let copy = copy_accounts(&self.accounts);
        proof {
            lemma_copy_same_map(self.accounts@, copy@);
        }
        let ghost old_saved = self.saved@;
        self.saved.push(copy);
        assert(self@.saved =~= old(self)@.saved.push(old(self)@.accounts));
        assert forall|i: int| 0 <= i < self.saved@.len() implies accounts_wf(
            (#[trigger] self.saved@[i])@,
        ) by {
            if i < old_saved.len() {
                assert(self.saved@[i] == old_saved[i]);
            }
        }
    }

    /// Closes the innermost nested transaction and keeps what it changed.
    pub fn commit_transaction(&mut self)
        requires
            old(self).wf(),
            old(self)@.saved.len() > 0,
        ensures
            final(self).wf(),
            final(self)@ == (LedgerView {
                accounts: old(self)@.accounts,
                saved: old(self)@.saved.drop_last(),
                block_hashes: old(self)@.block_hashes,
                events: old(self)@.events,
            }),
    {
        let ghost old_saved = self.saved@;
        let _ = self.saved.pop();
        assert(self@.saved =~= old(self)@.saved.drop_last());
        assert forall|i: int| 0 <= i < self.saved@.len() implies accounts_wf(
            (#[trigger] self.saved@[i])@,
        ) by {
            assert(self.saved@[i] == old_saved[i]);
        }
    }

    /// Closes the innermost nested transaction and undoes what it changed: the
    /// accounts are as when it was opened, but for their nonces, which stay.
    pub fn rollback_transaction(&mut self)
        requires
            old(self).wf(),
            old(self)@.saved.len() > 0,
        ensures
            final(self).wf(),
            final(self)@ == (LedgerView {
                accounts: keep_nonces(old(self)@.saved.last(), old(self)@.accounts),
                saved: old(self)@.saved.drop_last(),
                block_hashes: old(self)@.block_hashes,
                events: old(self)@.events,
            }),
    {
        let ghost old_saved = self.saved@;
        let n = self.saved.len();
        assert(accounts_wf(old_saved[n - 1]@));
        let mut current: Vec<AccountEntry> = Vec::new();
        match self.saved.pop() {
            Some(top) => {
                current = top;
            },
            None => {},
        }
        core::mem::swap(&mut current, &mut self.accounts);
        assert(self@.saved =~= old(self)@.saved.drop_last());
        assert forall|i: int| 0 <= i < self.saved@.len() implies accounts_wf(
            (#[trigger] self.saved@[i])@,
        ) by {
            assert(self.saved@[i] == old_saved[i]);
        }
        let ghost restored = self@.accounts;
        assert(restored == old(self)@.saved.last());
        assert(keep_nonces(restored, accounts_map(current@.subrange(0, 0))) =~= restored);
        let mut j: usize = 0;
        while j < current.len()
            invariant
                j <= current@.len(),
                accounts_wf(current@),
                self.wf(),
                self@.saved == old(self)@.saved.drop_last(),
                self@.block_hashes == old(self)@.block_hashes,
                self@.events == old(self)@.events,
                self@.accounts == keep_nonces(restored, accounts_map(current@.subrange(0, j as int))),
            decreases current@.len() - j,
        {
            let address = current[j].address;
            let nonce = current[j].nonce;
            let ghost before = self@.accounts;
            let ghost prefix = current@.subrange(0, j as int);
            proof {
                assert(!keyed_has(prefix, account_key(), address)) by {
                    if keyed_has(prefix, account_key(), address) {
                        let m = choose|m: int| 0 <= m < prefix.len() && #[trigger] account_key()(prefix[m]) == address;
                        assert(account_key()(current@[m]) == account_key()(current@[j as int]));
                    }
                }
                assert(keyed_unique(prefix, account_key()));
                lemma_keyed_push(prefix, account_key(), account_value(), current@[j as int]);
                assert(prefix.push(current@[j as int]) =~= current@.subrange(0, j + 1));
            }
            let i = self.entry_index(address);
            let ghost s = self.accounts@;
            self.accounts[i].nonce = nonce;
            proof {
                Self::lemma_after_replace(
                    LedgerView { accounts: before, ..self@ },
                    s,
                    self.accounts@,
                    i as int,
                    address,
                    with_nonce(account_in(before, address), nonce.value()),
                );
            }
            assert(self@.accounts =~= keep_nonces(restored, accounts_map(current@.subrange(0, j + 1))));
            j = j + 1;
        }
        assert(current@.subrange(0, current@.len() as int) =~= current@);
    }

    /// Moves `value` from `source` to `target`. Moving nothing, or moving to the
    /// same account, succeeds and changes nothing; otherwise it fails with
    /// `OutOfFund`, changing nothing, when `source` holds less than `value` or
    /// the balance of `target` would not fit in 256 bits.
    pub fn transfer(&mut self, source: H160, target: H160, value: U256) -> (r: Result<(), ExitError>)
        requires
            old(self).wf(),
        ensures
            final(self).wf(),
            (source == target || value.value() == 0) ==> r is Ok && final(self)@ == old(self)@,
            (source != target && value.value() > 0) ==> (r is Ok <==> (account_in(
                old(self)@.accounts,
                source,
            ).balance >= value.value() && account_in(old(self)@.accounts, target).balance
                + value.value() < u256_modulus())),
            (source != target && value.value() > 0 && r is Ok) ==> final(self)@ == with_accounts(
                old(self)@,
                old(self)@.accounts.insert(
                    source,
                    with_balance(
                        account_in(old(self)@.accounts, source),
                        (account_in(old(self)@.accounts, source).balance - value.value()) as nat,
                    ),
                ).insert(
                    target,
                    with_balance(
                        account_in(old(self)@.accounts, target),
                        account_in(old(self)@.accounts, target).balance + value.value(),
                    ),
                ),
            ),
            r is Err ==> r == Err::<(), ExitError>(ExitError::OutOfFund) && final(self)@ == old(self)@,
    {
        if source.same(&target) || u256_ge(U256::zero(), value) {
            return Ok(());
        }
        let from = self.basic(source);
        let to = self.basic(target);
        if !u256_ge(from.balance, value) {
            return Err(ExitError::OutOfFund);
        }
        match u256_checked_add(to.balance, value) {
            Some(b) => {
                let rest = u256_saturating_sub(from.balance, value);
                self.set_balance(source, rest);
                self.set_balance(target, b);
                Ok(())
            },
            None => Err(ExitError::OutOfFund),
        }
    }
}

} // verus!
