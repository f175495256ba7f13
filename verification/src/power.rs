//! Powers of two as machine integers.

use vstd::arithmetic::power2::{lemma2_to64, lemma_pow2_strictly_increases, lemma_pow2_unfold, pow2};
use vstd::prelude::*;

verus! {

/// The largest exponent whose power of two is computed here.
pub const LARGEST_POWER: u32 = 32;

/// Computes `2^e`.
pub(crate) fn two_to_the(e: u32) -> (p: u64)
    requires
        e <= LARGEST_POWER,
    ensures
        p == pow2(e as nat),
        p <= 0x1_0000_0000,
{
    let mut p: u64 = 1;
    let mut i: u32 = 0;
    proof {
        lemma2_to64();
    }
    while i < e
        invariant
            i <= e <= LARGEST_POWER,
            p == pow2(i as nat),
            p <= pow2(32),
            pow2(32) == 0x1_0000_0000,
        decreases e - i,
    {
        proof {
            lemma_pow2_unfold((i + 1) as nat);
            if i + 1 < 32 {
                lemma_pow2_strictly_increases((i + 1) as nat, 32);
            }
        }
        p = p * 2;
        i = i + 1;
    }
    p
}

} // verus!
