use vm_backend::{
    correct_and_deposit_fee, ten_units_imbalance, withdraw_fee, BlockEnv, ExitError, Ledger,
    StackSubstateMetadata, StorageStatus, Vicinity, VmStackState, H160, H256, U256,
};

fn address(first: u8, last: u8) -> H160 {
    let mut bytes = [0u8; 20];
    bytes[0] = first;
    bytes[19] = last;
    H160 { bytes }
}

fn word(last: u8) -> H256 {
    let mut bytes = [0u8; 32];
    bytes[31] = last;
    H256 { bytes }
}

fn env() -> BlockEnv {
    BlockEnv { chain_id: 42, block_number: 7, timestamp_ms: 12_345 }
}

fn state_over(ledger: Ledger) -> VmStackState {
    let vicinity = Vicinity { gas_price: U256::from_u64(3), origin: address(0x10, 1) };
    VmStackState::new(vicinity, StackSubstateMetadata::new(1000), None, ledger, env())
}

fn balance(ledger: &Ledger, a: H160) -> u64 {
    ledger.basic(a).balance.to_u64().unwrap()
}

#[test]
fn fee_deduction() {
    let evm_addr = address(0x10, 3);
    let mut ledger = Ledger::new(vec![]);
    assert!(ledger.deposit(evm_addr, U256::from_u64(100)));
    assert_eq!(balance(&ledger, evm_addr), 100);
    let imbalance = withdraw_fee(&mut ledger, evm_addr, U256::from_u64(10)).unwrap();
    assert_eq!(balance(&ledger, evm_addr), 90);
    correct_and_deposit_fee(&mut ledger, evm_addr, U256::from_u64(5), imbalance);
    assert_eq!(balance(&ledger, evm_addr), 95);
}

#[test]
fn ten_units_reserved() {
    let evm_addr = address(0x10, 4);
    let mut ledger = Ledger::new(vec![]);
    assert!(ledger.deposit(evm_addr, U256::from_u64(100)));
    let imbalance = ten_units_imbalance(&mut ledger, &evm_addr);
    assert_eq!(imbalance.amount, U256::from_u64(10));
    assert_eq!(balance(&ledger, evm_addr), 90);
    correct_and_deposit_fee(&mut ledger, evm_addr, U256::from_u64(5), imbalance);
    assert_eq!(balance(&ledger, evm_addr), 95);
}

#[test]
fn withdraw_fee_rejects_short_balance() {
    let a = address(0x10, 5);
    let mut ledger = Ledger::new(vec![]);
    assert!(ledger.deposit(a, U256::from_u64(5)));
    assert!(withdraw_fee(&mut ledger, a, U256::from_u64(6)).is_err());
    assert_eq!(balance(&ledger, a), 5);
}

#[test]
fn storage_writes_and_zero_removes() {
    let a = address(0x20, 1);
    let mut state = state_over(Ledger::new(vec![]));
    assert_eq!(state.storage(a, word(1)), word(0));
    state.set_storage(a, word(1), word(9));
    assert_eq!(state.storage(a, word(1)), word(9));
    assert_eq!(state.host_set_storage(a, word(2), word(8)), StorageStatus::EVMC_STORAGE_MODIFIED);
    assert_eq!(state.get_storage(a, word(2)), word(8));
    state.set_storage(a, word(1), word(0));
    assert_eq!(state.storage(a, word(1)), word(0));
    state.reset_storage(a);
    assert_eq!(state.storage(a, word(2)), word(0));
    assert_eq!(state.original_storage(a, word(2)), None);
}

#[test]
fn nested_transactions_follow_frames() {
    let a = address(0x20, 2);
    let mut state = state_over(Ledger::new(vec![]));
    state.set_storage(a, word(1), word(1));
    state.enter(500, false);
    state.set_storage(a, word(1), word(2));
    state.set_code(a, vec![0x60, 0x00]);
    assert_eq!(state.ledger().transaction_depth(), 1);
    assert!(state.exit_revert().is_ok());
    assert_eq!(state.storage(a, word(1)), word(1));
    assert!(state.code(a).is_empty());
    state.enter(500, false);
    state.set_storage(a, word(1), word(3));
    assert!(state.exit_commit().is_ok());
    assert_eq!(state.storage(a, word(1)), word(3));
    state.enter(500, false);
    state.set_code(a, vec![1]);
    assert!(state.exit_discard().is_ok());
    assert!(state.code(a).is_empty());
    assert!(state.exit_commit().is_err());
    assert_eq!(state.ledger().transaction_depth(), 0);
}

#[test]
fn transfer_moves_value_or_fails_out_of_fund() {
    let a = address(0x30, 1);
    let b = address(0x30, 2);
    let mut ledger = Ledger::new(vec![]);
    assert!(ledger.deposit(a, U256::from_u64(50)));
    let mut state = state_over(ledger);
    assert_eq!(state.transfer(a, b, U256::from_u64(20)), Ok(()));
    assert_eq!(state.get_balance(a), U256::from_u64(30));
    assert_eq!(state.get_balance(b), U256::from_u64(20));
    assert_eq!(state.transfer(a, b, U256::from_u64(31)), Err(ExitError::OutOfFund));
    assert_eq!(state.get_balance(a), U256::from_u64(30));
    assert_eq!(state.transfer(a, a, U256::from_u64(1000)), Ok(()));
    assert_eq!(state.get_balance(a), U256::from_u64(30));
}

#[test]
fn nonce_increments_outside_the_substate() {
    let a = address(0x30, 3);
    let mut state = state_over(Ledger::new(vec![]));
    state.enter(100, false);
    state.inc_nonce(a);
    assert_eq!(state.basic(a).nonce, U256::from_u64(1));
    assert!(state.exit_commit().is_ok());
    assert_eq!(state.basic(a).nonce, U256::from_u64(1));
    state.enter(100, false);
    state.inc_nonce(a);
    state.set_code(a, vec![1]);
    assert!(state.exit_revert().is_ok());
    assert_eq!(state.basic(a).nonce, U256::from_u64(2));
    assert!(state.code(a).is_empty());
    let b = address(0x30, 4);
    state.enter(100, false);
    state.inc_nonce(b);
    assert!(state.exit_discard().is_ok());
    assert_eq!(state.basic(b).nonce, U256::from_u64(1));
}

#[test]
fn chain_view() {
    let hashes = vec![word(1), word(2)];
    let state = state_over(Ledger::new(hashes));
    assert_eq!(state.block_hash(U256::from_u64(1)), word(2));
    assert_eq!(state.block_hash(U256::from_u64(2)), word(0));
    assert_eq!(state.block_hash(U256 { limbs: [1, 0, 0, 1] }), word(0));
    assert_eq!(state.block_hash(U256::from_u64(1u64 << 32)), word(0));
    assert_eq!(state.get_block_hash(0), word(1));
    assert_eq!(state.get_block_hash(-1), word(0));
    assert_eq!(state.block_number(), U256::from_u64(7));
    assert_eq!(state.block_timestamp(), U256::from_u64(12));
    assert_eq!(state.chain_id(), U256::from_u64(42));
    assert_eq!(state.block_difficulty(), U256::zero());
    assert_eq!(state.block_gas_limit(), U256::zero());
    assert_eq!(state.block_coinbase(), H160::zero());
    assert_eq!(state.gas_price(), U256::from_u64(3));
    assert_eq!(state.origin(), address(0x10, 1));
    assert!(state.account_exists(address(0x55, 0)));
}

#[test]
fn code_queries_and_emptiness() {
    let a = address(0x40, 1);
    let mut state = state_over(Ledger::new(vec![]));
    assert!(state.is_empty(a));
    state.set_code(a, vec![]);
    assert_eq!(state.get_code_size(a), 0);
    let empty_hash = state.get_code_hash(a);
    assert_eq!(empty_hash.bytes[0], 0xc5);
    assert_eq!(empty_hash.bytes[31], 0x70);
    state.set_code(a, vec![0x00]);
    assert_eq!(state.get_code_size(a), 1);
    assert_eq!(state.get_code_hash(a).bytes[0], 0xbc);
    assert!(!state.is_empty(a));
    assert_eq!(state.copy_code(a, 0, 32), 0);
}

#[test]
fn logs_and_deletions_through_the_state() {
    let a = address(0x40, 2);
    let mut state = state_over(Ledger::new(vec![]));
    state.enter(100, false);
    state.emit_log(a, vec![word(1)], vec![5]);
    state.set_deleted(a);
    assert!(state.deleted(a));
    assert!(state.exit_revert().is_ok());
    assert_eq!(state.current_logs().len(), 1);
    assert!(!state.deleted(a));
    state.log(a, vec![], vec![]);
    assert_eq!(state.current_logs().len(), 2);
}

#[test]
fn metadata_updated_in_place() {
    let mut state = state_over(Ledger::new(vec![]));
    state.enter(400, false);
    state.metadata_mut().gas_limit = 250;
    assert_eq!(*state.metadata(), StackSubstateMetadata { gas_limit: 250, is_static: false, depth: Some(0) });
    assert!(state.exit_commit().is_ok());
    assert_eq!(state.metadata().gas_limit, 1000);
}
