//! Contract-address derivation and the hash functions it rests on.

use vstd::prelude::*;

use crate::types::{lemma_value_zero_high, u256_modulus, word_base, H160, H256, U256};

verus! {

/// The Keccak-256 digest of a byte string.
pub uninterp spec fn keccak256_of(data: Seq<u8>) -> Seq<u8>;

/// The SHA-256 digest of a byte string.
pub uninterp spec fn sha256_of(data: Seq<u8>) -> Seq<u8>;

/// Relies on `sha3::Keccak256::digest`: a 32-byte digest that depends on the
/// input bytes alone.
#[verifier::external_body]
pub(crate) fn keccak256(data: &[u8]) -> (r: H256)
    ensures
        r.bytes@ == keccak256_of(data@),
{
    H256 { bytes: <sha3::Keccak256 as sha3::Digest>::digest(data).into() }
}

/// Relies on `sha2::Sha256::digest`: a 32-byte digest that depends on the
/// input bytes alone.
#[verifier::external_body]
pub(crate) fn sha256(data: &[u8]) -> (r: H256)
    ensures
        r.bytes@ == sha256_of(data@),
{
    H256 { bytes: <sha2::Sha256 as sha2::Digest>::digest(data).into() }
}

/// The minimal big-endian bytes of `n`: empty for zero, no leading zero byte otherwise.
pub open spec fn be_bytes(n: nat) -> Seq<u8>
    decreases n,
{
    if n == 0 {
        Seq::empty()
    } else {
        be_bytes(n / 256).push((n % 256) as u8)
    }
}

/// The integer that big-endian bytes stand for.
pub open spec fn be_value(b: Seq<u8>) -> nat
    decreases b.len(),
{
    if b.len() == 0 {
        0
    } else {
        be_value(b.drop_last()) * 256 + b.last() as nat
    }
}

/// RLP encoding of a byte string of at most 55 bytes.
pub open spec fn rlp_short_string(b: Seq<u8>) -> Seq<u8> {
    if b.len() == 1 && b[0] < 0x80 {
        b
    } else {
        seq![(0x80 + b.len()) as u8] + b
    }
}

/// RLP encoding of the two-item list `[sender, nonce]`, the nonce as an integer.
pub open spec fn rlp_sender_nonce_of(sender: Seq<u8>, nonce: nat) -> Seq<u8> {
    let payload = rlp_short_string(sender) + rlp_short_string(be_bytes(nonce));
    seq![(0xc0 + payload.len()) as u8] + payload
}

/// The address of a contract created by `sender` at `nonce`: the low 160 bits of
/// the Keccak-256 digest of the RLP list `[sender, nonce]`.
pub open spec fn create_address_of(sender: Seq<u8>, nonce: nat) -> Seq<u8> {
    keccak256_of(rlp_sender_nonce_of(sender, nonce)).subrange(12, 32)
}

/// The bytes hashed for a salted creation: `0xff ‖ sender ‖ salt ‖ code_hash`.
pub open spec fn create2_preimage(sender: Seq<u8>, salt: Seq<u8>, code_hash: Seq<u8>) -> Seq<u8> {
    seq![0xffu8] + sender + salt + code_hash
}

/// The address of a contract created by `sender` with `salt` and an init code
/// whose digest is `code_hash`.
pub open spec fn create2_address_of(sender: Seq<u8>, salt: Seq<u8>, code_hash: Seq<u8>) -> Seq<u8> {
    keccak256_of(create2_preimage(sender, salt, code_hash)).subrange(12, 32)
}

/// `256` to the power of `k`.
pub open spec fn pow256(k: nat) -> nat
    decreases k,
{
    if k == 0 {
        1
    } else {
        256 * pow256((k - 1) as nat)
    }
}

/// `be_value` undoes `be_bytes`.
pub proof fn lemma_be_round_trip(n: nat)
    ensures
        be_value(be_bytes(n)) == n,
    decreases n,
{
    if n > 0 {
        lemma_be_round_trip(n / 256);
        assert(be_bytes(n).drop_last() =~= be_bytes(n / 256));
    }
}

/// A number below `256^k` has at most `k` minimal big-endian bytes.
pub proof fn lemma_be_len(n: nat, k: nat)
    requires
        n < pow256(k),
    ensures
        be_bytes(n).len() <= k,
    decreases k,
{
    if n > 0 {
        assert(k > 0);
        assert(n / 256 < pow256((k - 1) as nat));
        lemma_be_len(n / 256, (k - 1) as nat);
    }
}

/// A 256-bit number has at most 32 minimal big-endian bytes.
pub proof fn lemma_be_len_u256(n: nat)
    requires
        n < u256_modulus(),
    ensures
        be_bytes(n).len() <= 32,
{
    reveal_with_fuel(pow256, 33);
    assert(pow256(8) == word_base());
    assert(pow256(32) == pow256(8) * pow256(8) * pow256(8) * pow256(8)) by {
        reveal_with_fuel(pow256, 33);
    }
    lemma_be_len(n, 32);
}

/// The RLP encoding of a short byte string determines the string.
pub proof fn lemma_rlp_short_string_injective(a: Seq<u8>, b: Seq<u8>)
    requires
        a.len() <= 55,
        b.len() <= 55,
        rlp_short_string(a) == rlp_short_string(b),
    ensures
        a == b,
{
    let ea = rlp_short_string(a);
    let eb = rlp_short_string(b);
    assert(ea[0] == eb[0]);
    if a.len() == 1 && a[0] < 0x80 {
        if !(b.len() == 1 && b[0] < 0x80) {
            assert(eb[0] == (0x80 + b.len()) as u8);
            assert(false);
        }
    } else {
        if b.len() == 1 && b[0] < 0x80 {
            assert(ea[0] == (0x80 + a.len()) as u8);
            assert(false);
        } else {
            assert(a.len() == b.len());
            assert(a =~= ea.subrange(1, ea.len() as int));
            assert(b =~= eb.subrange(1, eb.len() as int));
        }
    }
}

/// Contract-address derivation is a function of `(sender, nonce)` alone, and the
/// bytes that it hashes determine both: two different pairs are hashed from two
/// different preimages.
pub proof fn lemma_create_address_preimage_injective(s1: H160, n1: U256, s2: H160, n2: U256)
    ensures
        (s1 == s2 && n1.value() == n2.value()) ==> create_address_of(s1.bytes@, n1.value())
            == create_address_of(s2.bytes@, n2.value()),
        rlp_sender_nonce_of(s1.bytes@, n1.value()) == rlp_sender_nonce_of(s2.bytes@, n2.value())
            ==> (s1 == s2 && n1.value() == n2.value()),
{
    if rlp_sender_nonce_of(s1.bytes@, n1.value()) == rlp_sender_nonce_of(s2.bytes@, n2.value()) {
        lemma_value_zero_high(n1);
        lemma_value_zero_high(n2);
        lemma_be_len_u256(n1.value());
        lemma_be_len_u256(n2.value());
        let e1 = rlp_sender_nonce_of(s1.bytes@, n1.value());
        let e2 = rlp_sender_nonce_of(s2.bytes@, n2.value());
        let a1 = rlp_short_string(s1.bytes@);
        let a2 = rlp_short_string(s2.bytes@);
        assert(a1 == seq![0x94u8] + s1.bytes@);
        assert(a2 == seq![0x94u8] + s2.bytes@);
        assert(s1.bytes@ =~= e1.subrange(2, 22));
        assert(s2.bytes@ =~= e2.subrange(2, 22));
        assert(s1.bytes =~= s2.bytes);
        let b1 = be_bytes(n1.value());
        let b2 = be_bytes(n2.value());
        assert(rlp_short_string(b1) =~= e1.subrange(22, e1.len() as int));
        assert(rlp_short_string(b2) =~= e2.subrange(22, e2.len() as int));
        lemma_rlp_short_string_injective(b1, b2);
        lemma_be_round_trip(n1.value());
        lemma_be_round_trip(n2.value());
    }
}

/// Relies on `rlp::RlpStream` and the RLP encodings that `primitive-types` gives
/// `H160` (its 20 bytes as a string) and `U256` (its minimal big-endian bytes as
/// a string): the two-item list `[sender, nonce]`.
#[verifier::external_body]
fn rlp_sender_nonce(sender: &H160, nonce: &U256) -> (r: Vec<u8>)
    ensures
        r@ == rlp_sender_nonce_of(sender.bytes@, nonce.value()),
{
    let mut stream = rlp::RlpStream::new_list(2);
    stream.append(&primitive_types::H160(sender.bytes));
    stream.append(&primitive_types::U256(nonce.limbs));
    stream.out().to_vec()
}

/// The low 160 bits of a 256-bit digest.
fn low_address(h: &H256) -> (r: H160)
    ensures
        r.bytes@ == h.bytes@.subrange(12, 32),
{
    let mut bytes = [0u8; 20];
    let mut i: usize = 0;
    while i < 20
        invariant
            i <= 20,
            forall|j: int| 0 <= j < i ==> bytes@[j] == h.bytes@[j + 12],
        decreases 20 - i,
    {
        bytes[i] = h.bytes[i + 12];
        i = i + 1;
    }
    assert(bytes@ =~= h.bytes@.subrange(12, 32));
    H160 { bytes }
}

/// Address of a contract created by `caller` when its nonce is `nonce`.
pub fn create_address(caller: H160, nonce: U256) -> (r: H160)
    ensures
        r.bytes@ == create_address_of(caller.bytes@, nonce.value()),
{
    let encoded = rlp_sender_nonce(&caller, &nonce);
    let digest = keccak256(encoded.as_slice());
    low_address(&digest)
}

/// Address of a contract created by `caller` with `salt` from init code whose
/// Keccak-256 digest is `code_hash`.
pub fn create2_address(caller: H160, salt: H256, code_hash: H256) -> (r: H160)
    ensures
        r.bytes@ == create2_address_of(caller.bytes@, salt.bytes@, code_hash.bytes@),
{
    let mut preimage: Vec<u8> = Vec::new();
    preimage.push(0xffu8);
    let mut i: usize = 0;
    while i < 20
        invariant
            i <= 20,
            preimage@ == seq![0xffu8] + caller.bytes@.subrange(0, i as int),
        decreases 20 - i,
    {
        preimage.push(caller.bytes[i]);
        i = i + 1;
        assert(preimage@ =~= seq![0xffu8] + caller.bytes@.subrange(0, i as int));
    }
    let mut j: usize = 0;
    while j < 32
        invariant
            j <= 32,
            preimage@ == seq![0xffu8] + caller.bytes@ + salt.bytes@.subrange(0, j as int),
        decreases 32 - j,
    {
        preimage.push(salt.bytes[j]);
        j = j + 1;
        assert(preimage@ =~= seq![0xffu8] + caller.bytes@ + salt.bytes@.subrange(0, j as int));
    }
    let mut k: usize = 0;
    while k < 32
        invariant
            k <= 32,
            preimage@ == seq![0xffu8] + caller.bytes@ + salt.bytes@ + code_hash.bytes@.subrange(
                0,
                k as int,
            ),
        decreases 32 - k,
    {
        preimage.push(code_hash.bytes[k]);
        k = k + 1;
        assert(preimage@ =~= seq![0xffu8] + caller.bytes@ + salt.bytes@
            + code_hash.bytes@.subrange(0, k as int));
    }
    assert(preimage@ =~= create2_preimage(caller.bytes@, salt.bytes@, code_hash.bytes@));
    let digest = keccak256(preimage.as_slice());
    low_address(&digest)
}

} // verus!
