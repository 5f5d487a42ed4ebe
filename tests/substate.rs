use vm_backend::{StackSubstateMetadata, SubstrateStackSubstate, H160, H256};

fn address(last: u8) -> H160 {
    let mut bytes = [0u8; 20];
    bytes[19] = last;
    H160 { bytes }
}

#[test]
fn reverted_child_keeps_logs_and_drops_deletions() {
    let mut s = SubstrateStackSubstate::new(StackSubstateMetadata::new(1000));
    s.enter(500, false);
    s.log(address(1), vec![H256 { bytes: [7u8; 32] }], vec![1, 2, 3]);
    s.set_deleted(address(9));
    assert!(s.deleted(address(9)));
    assert!(s.exit_revert().is_ok());
    let logs = s.current_logs();
    assert_eq!(logs.len(), 1);
    assert_eq!(logs[0].address, address(1));
    assert_eq!(logs[0].data, vec![1, 2, 3]);
    assert!(!s.deleted(address(9)));
    assert!(s.current_deletes().is_empty());
}

#[test]
fn committed_child_keeps_logs_and_deletions() {
    let mut s = SubstrateStackSubstate::new(StackSubstateMetadata::new(1000));
    s.log(address(2), vec![], vec![]);
    s.enter(500, false);
    s.log(address(1), vec![], vec![9]);
    s.set_deleted(address(9));
    assert!(s.exit_commit().is_ok());
    let logs = s.current_logs();
    assert_eq!(logs.len(), 2);
    assert_eq!(logs[0].address, address(2));
    assert_eq!(logs[1].address, address(1));
    assert!(s.deleted(address(9)));
    assert_eq!(s.current_deletes(), vec![address(9)]);
}

#[test]
fn discarded_child_keeps_logs_and_drops_deletions() {
    let mut s = SubstrateStackSubstate::new(StackSubstateMetadata::new(1000));
    s.enter(500, false);
    s.log(address(1), vec![], vec![]);
    s.set_deleted(address(4));
    assert!(s.exit_discard().is_ok());
    assert_eq!(s.current_logs().len(), 1);
    assert!(!s.deleted(address(4)));
}

#[test]
fn exits_fail_at_the_root() {
    let mut s = SubstrateStackSubstate::new(StackSubstateMetadata::new(1000));
    assert!(s.exit_commit().is_err());
    assert!(s.exit_revert().is_err());
    assert!(s.exit_discard().is_err());
    s.enter(10, false);
    assert!(s.exit_commit().is_ok());
    assert!(s.exit_commit().is_err());
}

#[test]
fn deletion_seen_from_descendants() {
    let mut s = SubstrateStackSubstate::new(StackSubstateMetadata::new(1000));
    s.set_deleted(address(5));
    s.enter(100, false);
    s.enter(50, false);
    assert!(s.deleted(address(5)));
    assert!(!s.deleted(address(6)));
    s.set_deleted(address(6));
    assert!(s.deleted(address(6)));
    assert!(s.exit_revert().is_ok());
    assert!(!s.deleted(address(6)));
    assert!(s.deleted(address(5)));
}

#[test]
fn enter_sets_child_metadata() {
    let mut s = SubstrateStackSubstate::new(StackSubstateMetadata::new(1000));
    assert_eq!(s.metadata().depth, None);
    s.enter(300, true);
    assert_eq!(*s.metadata(), StackSubstateMetadata { gas_limit: 300, is_static: true, depth: Some(0) });
    s.enter(200, false);
    assert_eq!(*s.metadata(), StackSubstateMetadata { gas_limit: 200, is_static: true, depth: Some(1) });
    s.metadata_mut().gas_limit = 150;
    assert_eq!(s.metadata().gas_limit, 150);
    assert!(s.exit_commit().is_ok());
    assert_eq!(s.metadata().gas_limit, 300);
}

#[test]
fn duplicate_deletion_recorded_once() {
    let mut s = SubstrateStackSubstate::new(StackSubstateMetadata::new(1000));
    s.set_deleted(address(3));
    s.enter(10, false);
    s.set_deleted(address(3));
    s.set_deleted(address(3));
    assert_eq!(s.current_deletes().len(), 1);
    assert!(s.exit_commit().is_ok());
    assert_eq!(s.current_deletes(), vec![address(3)]);
}
