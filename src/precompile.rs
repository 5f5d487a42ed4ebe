//! Precompiled routines at fixed addresses.

use vstd::prelude::*;

use crate::address::{keccak256, keccak256_of, sha256, sha256_of};
use crate::runner::Runner;
use crate::types::{H160, H256};

verus! {

/// The precompiled routine at an address, if any: SHA-256 at address 2,
/// Keccak-256 at address 9.
#[derive(Clone, Copy, Debug, PartialEq, Eq, Structural)]
pub enum Precompile {
    Sha256,
    Keccak256,
}

/// Whether the first 19 bytes of `a` are zero and the last is `last`.
pub open spec fn is_low_address(a: H160, last: u8) -> bool {
    &&& forall|i: int| 0 <= i < 19 ==> a.bytes@[i] == 0
    &&& a.bytes@[19] == last
}

pub open spec fn precompile_at(target: H160) -> Option<Precompile> {
    if is_low_address(target, 2) {
        Some(Precompile::Sha256)
    } else if is_low_address(target, 9) {
        Some(Precompile::Keccak256)
    } else {
        None
    }
}

/// The precompiled routine at `target`, if any.
pub fn precompile_of(target: &H160) -> (r: Option<Precompile>)
    ensures
        r == precompile_at(*target),
{
    let mut i: usize = 0;
    while i < 19
        invariant
            i <= 19,
            forall|j: int| 0 <= j < i ==> target.bytes@[j] == 0,
        decreases 19 - i,
    {
        if target.bytes[i] != 0 {
            return None;
        }
        i = i + 1;
    }
    if target.bytes[19] == 2 {
        Some(Precompile::Sha256)
    } else if target.bytes[19] == 9 {
        Some(Precompile::Keccak256)
    } else {
        None
    }
}

impl Runner {
    /// Runs the precompiled routine at `target` on `data`. Returns whether there is
    /// one, its output (the digest of `data`; a single zero byte when there is
    /// none) and the gas it consumes: the whole budget.
    pub fn execute_precompiles(target: &H160, data: &Vec<u8>, gas_limit: u64) -> (r: (bool, Vec<u8>, u64))
        ensures
            r.0 == precompile_at(*target) is Some,
            precompile_at(*target) == Some(Precompile::Sha256) ==> r.1@ == sha256_of(data@),
            precompile_at(*target) == Some(Precompile::Keccak256) ==> r.1@ == keccak256_of(data@),
            precompile_at(*target) is None ==> r.1@ == seq![0u8],
            r.2 == gas_limit,
    {
        match precompile_of(target) {
            Some(Precompile::Sha256) => {
                let digest = sha256(data.as_slice());
                (true, digest_bytes(&digest), gas_limit)
            },
            Some(Precompile::Keccak256) => {
                let digest = keccak256(data.as_slice());
                (true, digest_bytes(&digest), gas_limit)
            },
            None => {
                let mut out: Vec<u8> = Vec::new();
                out.push(0u8);
                assert(out@ =~= seq![0u8]);
                (false, out, gas_limit)
            },
        }
    }
}

/// The bytes of a digest, as a vector.
fn digest_bytes(h: &crate::types::H256) -> (r: Vec<u8>)
    ensures
        r@ == h.bytes@,
{
    let mut r: Vec<u8> = Vec::new();
    let mut i: usize = 0;
    while i < 32
        invariant
            i <= 32,
            r@ == h.bytes@.subrange(0, i as int),
        decreases 32 - i,
    {
        r.push(h.bytes[i]);
        i = i + 1;
        assert(r@ =~= h.bytes@.subrange(0, i as int));
    }
    assert(r@ =~= h.bytes@);
    r
}

} // verus!
