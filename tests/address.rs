use vm_backend::{
    create2_address, create2_target, create_address, H160, H256, Runner, U256,
};

fn hex_bytes(s: &str) -> Vec<u8> {
    let s = s.trim_start_matches("0x");
    (0..s.len() / 2).map(|i| u8::from_str_radix(&s[2 * i..2 * i + 2], 16).unwrap()).collect()
}

fn h160(s: &str) -> H160 {
    let mut bytes = [0u8; 20];
    bytes.copy_from_slice(&hex_bytes(s));
    H160 { bytes }
}

fn h256(s: &str) -> H256 {
    let mut bytes = [0u8; 32];
    bytes.copy_from_slice(&hex_bytes(s));
    H256 { bytes }
}

#[test]
fn create_address_known_vectors() {
    let sender = h160("6ac7ea33f8831ea9dcc53393aaa88b25a785dbf0");
    let expected = [
        "cd234a471b72ba2f1ccf0a70fcaba648a5eecd8d",
        "343c43a37d37dff08ae8c4a11544c718abb4fcf8",
        "f778b86fa74e846c4f0a1fbd1335fe81c00a0c91",
        "fffd933a0bc612844eaf0c6fe3e5b8e9b6c1d19c",
    ];
    for (nonce, want) in expected.iter().enumerate() {
        let got = create_address(sender, U256::from_u64(nonce as u64));
        assert_eq!(got, h160(want));
    }
}

#[test]
fn create_address_is_deterministic_and_input_sensitive() {
    let sender = h160("1000000000000000000000000000000000000001");
    let a = create_address(sender, U256::from_u64(1));
    let b = create_address(sender, U256::from_u64(1));
    assert_eq!(a, b);
    assert_ne!(a, create_address(sender, U256::from_u64(2)));
    assert_ne!(a, create_address(h160("1000000000000000000000000000000000000002"), U256::from_u64(1)));
}

#[test]
fn create_address_large_nonce() {
    let sender = h160("6ac7ea33f8831ea9dcc53393aaa88b25a785dbf0");
    let big = U256 { limbs: [u64::MAX, u64::MAX, u64::MAX, u64::MAX] };
    let a = create_address(sender, big);
    assert_eq!(a, create_address(sender, big));
    assert_ne!(a, create_address(sender, U256::from_u64(0)));
}

#[test]
fn create2_address_eip_vectors() {
    let zero_salt = h256("0000000000000000000000000000000000000000000000000000000000000000");
    let got = create2_target(h160("0000000000000000000000000000000000000000"), &vec![0x00], zero_salt);
    assert_eq!(got, h160("4d1a2e2bb4f88f0250f26ffff098b0b30b26bf38"));
    let got = create2_target(h160("deadbeef00000000000000000000000000000000"), &vec![0x00], zero_salt);
    assert_eq!(got, h160("b928f69bb1d91cd65274e3c79d8986362984fda3"));
    let salt = h256("000000000000000000000000feed000000000000000000000000000000000000");
    let got = create2_target(h160("deadbeef00000000000000000000000000000000"), &vec![0x00], salt);
    assert_eq!(got, h160("d04116cdd17bebe565eb2422f2497e06cc1c9833"));
}

#[test]
fn create2_address_from_code_hash() {
    // keccak256 of the single byte 0x00
    let code_hash = h256("bc36789e7a1e281436464229828f817d6612f7b477d66591ff96a9e064bcc98a");
    let zero_salt = h256("0000000000000000000000000000000000000000000000000000000000000000");
    let got = create2_address(h160("0000000000000000000000000000000000000000"), zero_salt, code_hash);
    assert_eq!(got, h160("4d1a2e2bb4f88f0250f26ffff098b0b30b26bf38"));
}

#[test]
fn precompile_sha256_at_address_two() {
    let target = h160("0000000000000000000000000000000000000002");
    let (found, out, gas) = Runner::execute_precompiles(&target, &vec![], 5000);
    assert!(found);
    assert_eq!(out, hex_bytes("e3b0c44298fc1c149afbf4c8996fb92427ae41e4649b934ca495991b7852b855"));
    assert_eq!(gas, 5000);
    let (_, again, gas_again) = Runner::execute_precompiles(&target, &vec![], 5000);
    assert_eq!(again, out);
    assert_eq!(gas_again, 5000);
    let (_, abc, _) = Runner::execute_precompiles(&target, &b"abc".to_vec(), 7);
    assert_eq!(abc, hex_bytes("ba7816bf8f01cfea414140de5dae2223b00361a396177a9cb410ff61f20015ad"));
}

#[test]
fn precompile_keccak256_at_address_nine() {
    let target = h160("0000000000000000000000000000000000000009");
    let (found, out, gas) = Runner::execute_precompiles(&target, &vec![], 123);
    assert!(found);
    assert_eq!(out, hex_bytes("c5d2460186f7233c927e7db2dcc703c0e500b653ca82273b7bfad8045d85a470"));
    assert_eq!(gas, 123);
    let (_, again, _) = Runner::execute_precompiles(&target, &vec![], 123);
    assert_eq!(again, out);
}

#[test]
fn no_precompile_elsewhere() {
    let (found, out, gas) = Runner::execute_precompiles(&h160("0000000000000000000000000000000000000003"), &vec![1, 2], 9);
    assert!(!found);
    assert_eq!(out, vec![0u8]);
    assert_eq!(gas, 9);
    let (found, _, _) = Runner::execute_precompiles(&h160("1000000000000000000000000000000000000002"), &vec![], 9);
    assert!(!found);
}

#[test]
fn u256_arithmetic() {
    let a = U256::from_u64(3);
    let b = U256::from_u64(4);
    assert_eq!(a.checked_mul(b), Some(U256::from_u64(12)));
    assert_eq!(a.checked_add(b), Some(U256::from_u64(7)));
    assert_eq!(b.saturating_sub(a), U256::from_u64(1));
    assert_eq!(a.saturating_sub(b), U256::zero());
    assert!(b.ge(&a));
    assert!(!a.ge(&b));
    let max = U256 { limbs: [u64::MAX; 4] };
    assert_eq!(max.checked_add(U256::from_u64(1)), None);
    assert_eq!(max.checked_mul(U256::from_u64(2)), None);
    let high = U256 { limbs: [0, 1, 0, 0] };
    assert_eq!(high.to_u64(), None);
    assert_eq!(U256::from_u64(9).to_u64(), Some(9));
    assert_eq!(
        U256::from_u64(u64::MAX).checked_mul(U256::from_u64(2)),
        Some(U256 { limbs: [u64::MAX - 1, 1, 0, 0] })
    );
}
