//! Constant-product liquidity arithmetic: integer square root,
//! proportional shares, and the liquidity-issuance preview.

use vstd::prelude::*;
use vstd::arithmetic::div_mod::{lemma_div_is_ordered, lemma_div_multiples_vanish_quotient};
use vstd::arithmetic::mul::{lemma_mul_inequality, lemma_mul_nonnegative};

use crate::data_structures::PoolMetadata;
use crate::utils::MINIMUM_LIQUIDITY;

verus! {

/// Floor of the square root: the greatest `r` with `r * r <= n`.
pub open spec fn sqrt_floor(n: nat) -> nat
    decreases n,
{
    if n == 0 {
        0
    } else {
        let s = sqrt_floor((n - 1) as nat);
        if (s + 1) * (s + 1) <= n {
            s + 1
        } else {
            s
        }
    }
}

/// `sqrt_floor(n)` squares to at most `n`, and the next integer up
/// squares past it.
pub proof fn lemma_sqrt_floor_bounds(n: nat)
    ensures
        sqrt_floor(n) * sqrt_floor(n) <= n,
        n < (sqrt_floor(n) + 1) * (sqrt_floor(n) + 1),
    decreases n,
{
    if n == 0 {
        assert(sqrt_floor(n) * sqrt_floor(n) <= n < (sqrt_floor(n) + 1) * (sqrt_floor(n) + 1))
            by (nonlinear_arith)
            requires
                n == 0,
                sqrt_floor(n) == 0,
        ;
    } else {
        lemma_sqrt_floor_bounds((n - 1) as nat);
        let s = sqrt_floor((n - 1) as nat);
        if (s + 1) * (s + 1) <= n {
            assert(sqrt_floor(n) == s + 1);
            assert(sqrt_floor(n) * sqrt_floor(n) <= n < (sqrt_floor(n) + 1) * (sqrt_floor(n) + 1))
                by (nonlinear_arith)
                requires
                    s * s <= n - 1 < (s + 1) * (s + 1),
                    (s + 1) * (s + 1) <= n,
                    sqrt_floor(n) == s + 1,
                    s >= 0,
            ;
        } else {
            assert(sqrt_floor(n) == s);
            assert(sqrt_floor(n) * sqrt_floor(n) <= n < (sqrt_floor(n) + 1) * (sqrt_floor(n) + 1))
                by (nonlinear_arith)
                requires
                    s * s <= n - 1,
                    !((s + 1) * (s + 1) <= n),
                    sqrt_floor(n) == s,
                    s >= 0,
                    n >= 1,
            ;
        }
    }
}

/// Any `r` bracketed by the two squares is the floor square root.
pub proof fn lemma_sqrt_floor_unique(n: nat, r: nat)
    requires
        r * r <= n,
        n < (r + 1) * (r + 1),
    ensures
        r == sqrt_floor(n),
{
    let s = sqrt_floor(n);
    lemma_sqrt_floor_bounds(n);
    if r < s {
        assert((r + 1) * (r + 1) <= s * s) by (nonlinear_arith)
            requires
                0 <= r < s,
        ;
    }
    if s < r {
        assert((s + 1) * (s + 1) <= r * r) by (nonlinear_arith)
            requires
                0 <= s < r,
        ;
    }
}

/// Floor square root of a 128-bit value, by binary search on the result.
///
/// Any 128-bit value's root fits in 64 bits.
pub fn integer_sqrt(n: u128) -> (r: u64)
    ensures
        r == sqrt_floor(n as nat),
{
    let mut lo: u64 = 0;
    let mut hi: u64 = u64::MAX;
    proof {
        assert((u64::MAX as int + 1) * (u64::MAX as int + 1) > u128::MAX as int)
            by (nonlinear_arith);
    }
    while lo < hi
        invariant
            lo <= hi,
            (lo as int) * (lo as int) <= n as int,
            (n as int) < ((hi as int) + 1) * ((hi as int) + 1),
        decreases hi - lo,
    {
        let mid: u64 = (((lo as u128) + (hi as u128) + 1) / 2) as u64;
        proof {
            assert(lo < mid <= hi);
            assert((mid as int) * (mid as int) <= u128::MAX as int) by (nonlinear_arith)
                requires
                    0 <= mid as int <= u64::MAX as int,
            ;
        }
        let mid_sq: u128 = (mid as u128) * (mid as u128);
        if mid_sq <= n {
            lo = mid;
        } else {
            hi = mid - 1;
        }
    }
    proof {
        lemma_sqrt_floor_unique(n as nat, lo as nat);
    }
    lo
}

/// The lesser of two integers.
pub open spec fn min_int(a: int, b: int) -> int {
    if a <= b {
        a
    } else {
        b
    }
}

/// `value * multiplier / divisor`, rounded down.
pub open spec fn proportional(value: int, multiplier: int, divisor: int) -> int {
    value * multiplier / divisor
}

/// A holder of `value` out of `divisor` units is owed the same share
/// of `multiplier` units: `floor(value * multiplier / divisor)`.
///
/// The product is formed in 128 bits, so it cannot overflow; the
/// quotient is required to fit the 64-bit result.
pub fn proportional_value(value: u64, multiplier: u64, divisor: u64) -> (r: u64)
    requires
        divisor > 0,
        proportional(value as int, multiplier as int, divisor as int) <= u64::MAX,
    ensures
        r == proportional(value as int, multiplier as int, divisor as int),
{
    proof {
        assert((value as int) * (multiplier as int) <= u128::MAX as int) by (nonlinear_arith)
            requires
                0 <= value as int <= u64::MAX as int,
                0 <= multiplier as int <= u64::MAX as int,
        ;
    }
    let wide: u128 = (value as u128) * (multiplier as u128);
    let q: u128 = wide / (divisor as u128);
    q as u64
}

/// Liquidity issued when the pool is empty: the geometric mean of
/// the two deposits, rounded down.
pub fn initial_liquidity(asset_0_in: u64, asset_1_in: u64) -> (r: u64)
    ensures
        r == sqrt_floor((asset_0_in * asset_1_in) as nat),
{
    proof {
        assert((asset_0_in as int) * (asset_1_in as int) <= u128::MAX as int) by (nonlinear_arith)
            requires
                0 <= asset_0_in as int <= u64::MAX as int,
                0 <= asset_1_in as int <= u64::MAX as int,
        ;
    }
    let product: u128 = (asset_0_in as u128) * (asset_1_in as u128);
    integer_sqrt(product)
}

/// What `preview_add_liquidity` returns: for an empty pool, the
/// geometric mean of the deposits less the locked minimum; for a
/// filled pool, the lesser of the two deposits' proportional claims
/// on the issued liquidity.
pub open spec fn spec_add_liquidity(
    reserve_0: int,
    reserve_1: int,
    total_liquidity: int,
    asset_0_in: int,
    asset_1_in: int,
) -> int {
    if total_liquidity == 0 {
        sqrt_floor((asset_0_in * asset_1_in) as nat) - MINIMUM_LIQUIDITY
    } else {
        min_int(
            proportional(asset_0_in, total_liquidity, reserve_0),
            proportional(asset_1_in, total_liquidity, reserve_1),
        )
    }
}

/// The liquidity a deposit of `asset_0_in` and `asset_1_in` would be
/// issued against the pool's current state.
///
/// An empty pool must receive deposits whose geometric mean covers
/// the locked `MINIMUM_LIQUIDITY`; a filled pool's proportional
/// shares must fit the 64-bit result.
pub fn preview_add_liquidity(pool_metadata: PoolMetadata, asset_0_in: u64, asset_1_in: u64) -> (r:
    u64)
    requires
        pool_metadata.wf(),
        pool_metadata.liquidity.amount == 0 ==> sqrt_floor((asset_0_in * asset_1_in) as nat)
            >= MINIMUM_LIQUIDITY,
        pool_metadata.liquidity.amount > 0 ==> proportional(
            asset_0_in as int,
            pool_metadata.liquidity.amount as int,
            pool_metadata.reserve_0 as int,
        ) <= u64::MAX && proportional(
            asset_1_in as int,
            pool_metadata.liquidity.amount as int,
            pool_metadata.reserve_1 as int,
        ) <= u64::MAX,
    ensures
        r == spec_add_liquidity(
            pool_metadata.reserve_0 as int,
            pool_metadata.reserve_1 as int,
            pool_metadata.liquidity.amount as int,
            asset_0_in as int,
            asset_1_in as int,
        ),
{
    let total_liquidity = pool_metadata.liquidity.amount;
    if total_liquidity == 0 {
        let init_liquidity = initial_liquidity(asset_0_in, asset_1_in);
        init_liquidity - MINIMUM_LIQUIDITY
    } else {
        let share_0 = proportional_value(asset_0_in, total_liquidity, pool_metadata.reserve_0);
        let share_1 = proportional_value(asset_1_in, total_liquidity, pool_metadata.reserve_1);
        if share_0 <= share_1 {
            share_0
        } else {
            share_1
        }
    }
}

/// On a filled pool, issued liquidity never decreases when either
/// deposit grows and the other stands still.
pub proof fn lemma_add_liquidity_monotone(
    reserve_0: int,
    reserve_1: int,
    total_liquidity: int,
    asset_0_in: int,
    asset_1_in: int,
    asset_0_in_larger: int,
    asset_1_in_larger: int,
)
    requires
        reserve_0 > 0,
        reserve_1 > 0,
        total_liquidity > 0,
        0 <= asset_0_in <= asset_0_in_larger,
        0 <= asset_1_in <= asset_1_in_larger,
    ensures
        spec_add_liquidity(reserve_0, reserve_1, total_liquidity, asset_0_in, asset_1_in)
            <= spec_add_liquidity(
            reserve_0,
            reserve_1,
            total_liquidity,
            asset_0_in_larger,
            asset_1_in_larger,
        ),
{
    lemma_mul_inequality(asset_0_in, asset_0_in_larger, total_liquidity);
    lemma_mul_inequality(asset_1_in, asset_1_in_larger, total_liquidity);
    lemma_div_is_ordered(
        asset_0_in * total_liquidity,
        asset_0_in_larger * total_liquidity,
        reserve_0,
    );
    lemma_div_is_ordered(
        asset_1_in * total_liquidity,
        asset_1_in_larger * total_liquidity,
        reserve_1,
    );
}

/// On a filled pool, scaling both reserves and both deposits by the
/// same positive factor leaves the issued liquidity unchanged.
pub proof fn lemma_add_liquidity_scale_invariant(
    reserve_0: int,
    reserve_1: int,
    total_liquidity: int,
    asset_0_in: int,
    asset_1_in: int,
    factor: int,
)
    requires
        reserve_0 > 0,
        reserve_1 > 0,
        total_liquidity > 0,
        asset_0_in >= 0,
        asset_1_in >= 0,
        factor > 0,
    ensures
        spec_add_liquidity(
            factor * reserve_0,
            factor * reserve_1,
            total_liquidity,
            factor * asset_0_in,
            factor * asset_1_in,
        ) == spec_add_liquidity(reserve_0, reserve_1, total_liquidity, asset_0_in, asset_1_in),
{
    lemma_mul_nonnegative(asset_0_in, total_liquidity);
    lemma_mul_nonnegative(asset_1_in, total_liquidity);
    lemma_div_multiples_vanish_quotient(factor, asset_0_in * total_liquidity, reserve_0);
    lemma_div_multiples_vanish_quotient(factor, asset_1_in * total_liquidity, reserve_1);
    assert((factor * asset_0_in) * total_liquidity == factor * (asset_0_in * total_liquidity))
        by (nonlinear_arith);
    assert((factor * asset_1_in) * total_liquidity == factor * (asset_1_in * total_liquidity))
        by (nonlinear_arith);
}

/// On an empty pool, scaling both deposits by the same positive
/// factor scales the geometric mean by that factor, up to rounding:
/// the scaled mean lies in `[factor * mean, factor * (mean + 1))`.
pub proof fn lemma_initial_liquidity_scale_bounds(
    asset_0_in: nat,
    asset_1_in: nat,
    factor: nat,
)
    requires
        factor > 0,
    ensures
        factor * sqrt_floor(asset_0_in * asset_1_in) <= sqrt_floor(
            (factor * asset_0_in) * (factor * asset_1_in),
        ) < factor * (sqrt_floor(asset_0_in * asset_1_in) + 1),
{
    let p = asset_0_in * asset_1_in;
    let s = sqrt_floor(p);
    lemma_sqrt_floor_bounds(p);
    let big = (factor * asset_0_in) * (factor * asset_1_in);
    let t = sqrt_floor(big);
    lemma_sqrt_floor_bounds(big);
    assert(big == factor * factor * p) by (nonlinear_arith)
        requires
            p == asset_0_in * asset_1_in,
            big == (factor * asset_0_in) * (factor * asset_1_in),
    ;
    assert((factor * s) * (factor * s) <= big) by (nonlinear_arith)
        requires
            s * s <= p,
            big == factor * factor * p,
            factor > 0,
            s >= 0,
    ;
    assert(big < (factor * (s + 1)) * (factor * (s + 1))) by (nonlinear_arith)
        requires
            p < (s + 1) * (s + 1),
            big == factor * factor * p,
            factor > 0,
            s >= 0,
    ;
    assert(factor * s <= t) by (nonlinear_arith)
        requires
            (factor * s) * (factor * s) <= big,
            big < (t + 1) * (t + 1),
            factor * s >= 0,
            t >= 0,
    ;
    assert(t < factor * (s + 1)) by (nonlinear_arith)
        requires
            t * t <= big,
            big < (factor * (s + 1)) * (factor * (s + 1)),
            factor * (s + 1) >= 0,
            t >= 0,
    ;
}

/// On a filled pool, the pool takes the lesser of the two deposits'
/// proportional claims, never the greater: the result is bounded by
/// each claim and equal to one of them.
pub proof fn lemma_add_liquidity_takes_lesser_claim(
    reserve_0: int,
    reserve_1: int,
    total_liquidity: int,
    asset_0_in: int,
    asset_1_in: int,
)
    requires
        reserve_0 > 0,
        reserve_1 > 0,
        total_liquidity > 0,
    ensures
        spec_add_liquidity(reserve_0, reserve_1, total_liquidity, asset_0_in, asset_1_in)
            <= proportional(asset_0_in, total_liquidity, reserve_0),
        spec_add_liquidity(reserve_0, reserve_1, total_liquidity, asset_0_in, asset_1_in)
            <= proportional(asset_1_in, total_liquidity, reserve_1),
        spec_add_liquidity(reserve_0, reserve_1, total_liquidity, asset_0_in, asset_1_in)
            == proportional(asset_0_in, total_liquidity, reserve_0) || spec_add_liquidity(
            reserve_0,
            reserve_1,
            total_liquidity,
            asset_0_in,
            asset_1_in,
        ) == proportional(asset_1_in, total_liquidity, reserve_1),
{
}

} // verus!
