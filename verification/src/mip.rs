//! Mip-chain derivation: a texture offered for level-of-detail queries
//! carries a full mip chain, one level per halving down to 1 x 1, so
//! its level count is floor(log2(max(width, height))) + 1.

use vstd::prelude::*;
use vstd::arithmetic::power2::{
    lemma2_to64, lemma_pow2_pos, lemma_pow2_strictly_increases, lemma_pow2_unfold, pow2,
};
use crate::errors::ValidationError;

verus! {

/// floor(log2(n)), taking 0 for n = 0 and n = 1.
pub open spec fn floor_log2(n: nat) -> nat
    decreases n,
{
    if n < 2 {
        0
    } else {
        1 + floor_log2(n / 2)
    }
}

/// Number of levels in a full mip chain for a width x height texture:
/// level 0 at full size, then one level per halving down to 1 x 1.
pub open spec fn full_mip_chain_len(width: nat, height: nat) -> nat {
    floor_log2(if width >= height {
        width
    } else {
        height
    }) + 1
}

/// Derives the mip level count for a full chain. Zero dimensions are
/// rejected with `InvalidDimensions`; they would otherwise produce a
/// meaningless level count.
pub fn mip_level_count(width: u32, height: u32) -> (r: Result<u32, ValidationError>)
    ensures
        width == 0 || height == 0 ==> r == Err::<u32, ValidationError>(
            ValidationError::InvalidDimensions,
        ),
        width > 0 && height > 0 ==> (r matches Ok(c) && c as nat == full_mip_chain_len(
            width as nat,
            height as nat,
        )),
{
    if width == 0 || height == 0 {
        return Err(ValidationError::InvalidDimensions);
    }
    let m: u32 = if width >= height {
        width
    } else {
        height
    };
    let mut n: u32 = m;
    let mut level: u32 = 1;
    proof {
        lemma2_to64();
        assert(pow2(0) * (m as nat) <= m as nat) by (nonlinear_arith)
            requires
                pow2(0) == 1,
        ;
    }
    while n >= 2
        invariant
            1 <= n <= m,
            1 <= level <= 32,
            pow2((level - 1) as nat) * (n as nat) <= m as nat,
            floor_log2(n as nat) + level == floor_log2(m as nat) + 1,
        decreases n,
    {
        proof {
            lemma2_to64();
            lemma_pow2_unfold(level as nat);
            assert(pow2(level as nat) * ((n / 2) as nat) <= m as nat) by (nonlinear_arith)
                requires
                    n >= 2,
                    pow2((level - 1) as nat) * (n as nat) <= m as nat,
                    pow2(level as nat) == 2 * pow2((level - 1) as nat),
            ;
            if level >= 32 {
                if level > 32 {
                    lemma_pow2_strictly_increases(32, level as nat);
                }
                assert(pow2(level as nat) >= pow2(32));
                assert(pow2(level as nat) * ((n / 2) as nat) >= pow2(level as nat) * 1)
                    by (nonlinear_arith)
                    requires
                        n >= 2,
                ;
                assert(false);
            }
        }
        n = n / 2;
        level = level + 1;
    }
    Ok(level)
}

/// floor(log2(2^k)) = k: each halving of a power of two strips one
/// factor of two exactly.
pub proof fn lemma_floor_log2_pow2(k: nat)
    ensures
        floor_log2(pow2(k)) == k,
    decreases k,
{
    lemma2_to64();
    if k > 0 {
        lemma_pow2_unfold(k);
        lemma_pow2_pos((k - 1) as nat);
        assert(pow2(k) / 2 == pow2((k - 1) as nat));
        lemma_floor_log2_pow2((k - 1) as nat);
    }
}

/// A square texture whose side is 2^k has a full mip chain of exactly
/// k + 1 levels.
pub proof fn lemma_mip_chain_power_of_two(k: nat)
    ensures
        full_mip_chain_len(pow2(k), pow2(k)) == k + 1,
{
    lemma_floor_log2_pow2(k);
}

} // verus!
