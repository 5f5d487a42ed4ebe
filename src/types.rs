//! Addresses, hashes and 256-bit integers.

use vstd::prelude::*;

verus! {

/// Two to the power of 64.
pub open spec fn word_base() -> nat {
    18446744073709551616
}

/// Two to the power of 256: every `U256` is below it.
pub open spec fn u256_modulus() -> nat {
    word_base() * word_base() * word_base() * word_base()
}

/// An unsigned 256-bit integer, held as four 64-bit words, least significant first.
#[derive(Clone, Copy, Debug, PartialEq, Eq)]
pub struct U256 {
    pub limbs: [u64; 4],
}

/// A 160-bit address.
#[derive(Clone, Copy, Debug, PartialEq, Eq)]
pub struct H160 {
    pub bytes: [u8; 20],
}

/// A 256-bit hash or storage word.
#[derive(Clone, Copy, Debug, PartialEq, Eq)]
pub struct H256 {
    pub bytes: [u8; 32],
}

impl U256 {
    /// The integer that the four words stand for.
    pub open spec fn value(self) -> nat {
        self.limbs@[0] as nat + word_base() * (self.limbs@[1] as nat + word_base() * (
        self.limbs@[2] as nat + word_base() * (self.limbs@[3] as nat)))
    }

    pub fn zero() -> (r: U256)
        ensures
            r.value() == 0,
    {
        U256 { limbs: [0u64, 0u64, 0u64, 0u64] }
    }

    pub fn from_u64(x: u64) -> (r: U256)
        ensures
            r.value() == x,
    {
        U256 { limbs: [x, 0u64, 0u64, 0u64] }
    }

    /// `Some` of the value when it fits in 64 bits.
    pub fn to_u64(&self) -> (r: Option<u64>)
        ensures
            r == (if self.value() < word_base() {
                Some(self.limbs@[0])
            } else {
                None::<u64>
            }),
    {
        proof {
            lemma_value_zero_high(*self);
        }
        if self.limbs[1] == 0 && self.limbs[2] == 0 && self.limbs[3] == 0 {
            Some(self.limbs[0])
        } else {
            None
        }
    }
}

/// Relies on `primitive_types::U256::checked_mul`: the product, or `None` when it
/// does not fit in 256 bits.
#[verifier::external_body]
pub(crate) fn u256_checked_mul(a: U256, b: U256) -> (r: Option<U256>)
    ensures
        r is Some <==> a.value() * b.value() < u256_modulus(),
        r matches Some(v) ==> v.value() == a.value() * b.value(),
{
    match primitive_types::U256(a.limbs).checked_mul(primitive_types::U256(b.limbs)) {
        Some(v) => Some(U256 { limbs: v.0 }),
        None => None,
    }
}

/// Relies on `primitive_types::U256::checked_add`: the sum, or `None` when it
/// does not fit in 256 bits.
#[verifier::external_body]
pub(crate) fn u256_checked_add(a: U256, b: U256) -> (r: Option<U256>)
    ensures
        r is Some <==> a.value() + b.value() < u256_modulus(),
        r matches Some(v) ==> v.value() == a.value() + b.value(),
{
    match primitive_types::U256(a.limbs).checked_add(primitive_types::U256(b.limbs)) {
        Some(v) => Some(U256 { limbs: v.0 }),
        None => None,
    }
}

/// Relies on `primitive_types::U256::saturating_sub`: the difference, or zero
/// when `b` exceeds `a`.
#[verifier::external_body]
pub(crate) fn u256_saturating_sub(a: U256, b: U256) -> (r: U256)
    ensures
        r.value() == (if a.value() >= b.value() {
            a.value() - b.value()
        } else {
            0
        }),
{
    U256 { limbs: primitive_types::U256(a.limbs).saturating_sub(primitive_types::U256(b.limbs)).0 }
}

/// Relies on the `Ord` of `primitive_types::U256`, which orders by value.
#[verifier::external_body]
pub(crate) fn u256_ge(a: U256, b: U256) -> (r: bool)
    ensures
        r == (a.value() >= b.value()),
{
    primitive_types::U256(a.limbs) >= primitive_types::U256(b.limbs)
}

impl U256 {
    pub fn checked_mul(self, other: U256) -> (r: Option<U256>)
        ensures
            r is Some <==> self.value() * other.value() < u256_modulus(),
            r matches Some(v) ==> v.value() == self.value() * other.value(),
    {
        u256_checked_mul(self, other)
    }

    pub fn checked_add(self, other: U256) -> (r: Option<U256>)
        ensures
            r is Some <==> self.value() + other.value() < u256_modulus(),
            r matches Some(v) ==> v.value() == self.value() + other.value(),
    {
        u256_checked_add(self, other)
    }

    pub fn saturating_sub(self, other: U256) -> (r: U256)
        ensures
            r.value() == (if self.value() >= other.value() {
                self.value() - other.value()
            } else {
                0
            }),
    {
        u256_saturating_sub(self, other)
    }

    pub fn ge(&self, other: &U256) -> (r: bool)
        ensures
            r == (self.value() >= other.value()),
    {
        u256_ge(*self, *other)
    }
}

impl H160 {
    pub fn zero() -> (r: H160)
        ensures
            forall|i: int| 0 <= i < 20 ==> r.bytes@[i] == 0,
    {
        H160 { bytes: [0u8; 20] }
    }

    /// Equality of two addresses, byte by byte.
    pub fn same(&self, other: &H160) -> (r: bool)
        ensures
            r == (*self == *other),
    {
        let mut i: usize = 0;
        while i < 20
            invariant
                i <= 20,
                forall|j: int| 0 <= j < i ==> self.bytes@[j] == other.bytes@[j],
            decreases 20 - i,
        {
            if self.bytes[i] != other.bytes[i] {
                return false;
            }
            i = i + 1;
        }
        assert(self.bytes@ =~= other.bytes@);
        assert(self.bytes =~= other.bytes);
        true
    }
}

impl H256 {
    pub fn zero() -> (r: H256)
        ensures
            forall|i: int| 0 <= i < 32 ==> r.bytes@[i] == 0,
    {
        H256 { bytes: [0u8; 32] }
    }

    /// Whether every byte is zero.
    pub fn is_zero(&self) -> (r: bool)
        ensures
            r == (forall|i: int| 0 <= i < 32 ==> self.bytes@[i] == 0),
    {
        let mut i: usize = 0;
        while i < 32
            invariant
                i <= 32,
                forall|j: int| 0 <= j < i ==> self.bytes@[j] == 0,
            decreases 32 - i,
        {
            if self.bytes[i] != 0 {
                return false;
            }
            i = i + 1;
        }
        true
    }

    /// Equality of two words, byte by byte.
    pub fn same(&self, other: &H256) -> (r: bool)
        ensures
            r == (*self == *other),
    {
        let mut i: usize = 0;
        while i < 32
            invariant
                i <= 32,
                forall|j: int| 0 <= j < i ==> self.bytes@[j] == other.bytes@[j],
            decreases 32 - i,
        {
            if self.bytes[i] != other.bytes[i] {
                return false;
            }
            i = i + 1;
        }
        assert(self.bytes@ =~= other.bytes@);
        assert(self.bytes =~= other.bytes);
        true
    }
}

/// The value of a `U256` is below `word_base()` exactly when its three high words are zero.
pub proof fn lemma_value_zero_high(x: U256)
    ensures
        x.value() < word_base() <==> (x.limbs@[1] == 0 && x.limbs@[2] == 0 && x.limbs@[3] == 0),
        x.value() < u256_modulus(),
{
    let a = x.limbs@[0] as nat;
    let b = x.limbs@[1] as nat;
    let c = x.limbs@[2] as nat;
    let d = x.limbs@[3] as nat;
    let w = word_base();
    assert(a < w && b < w && c < w && d < w);
    assert(w * (b + w * (c + w * d)) >= w * b) by (nonlinear_arith)
        requires
            w > 0,
    ;
    assert(b > 0 ==> w * b >= w) by (nonlinear_arith);
    assert(w * (c + w * d) >= w * c) by (nonlinear_arith);
    assert(c > 0 ==> w * c >= w) by (nonlinear_arith);
    assert(c + w * d >= w * d) by (nonlinear_arith);
    assert(d > 0 ==> w * d >= w) by (nonlinear_arith);
    assert(b + w * (c + w * d) >= w * (c + w * d));
    assert(c + w * d < w * w) by (nonlinear_arith)
        requires
            c < w,
            d < w,
            w > 0,
    ;
    assert(b + w * (c + w * d) < w * w * w) by (nonlinear_arith)
        requires
            b < w,
            c + w * d < w * w,
            w > 0,
    ;
    assert(a + w * (b + w * (c + w * d)) < w * w * w * w) by (nonlinear_arith)
        requires
            a < w,
            b + w * (c + w * d) < w * w * w,
            w > 0,
    ;
}

} // verus!
