use amm_harness::data_structures::{Asset, Id32, PoolMetadata};
use amm_harness::math::{initial_liquidity, integer_sqrt, preview_add_liquidity, proportional_value};
use amm_harness::utils::{to_9_decimal, MINIMUM_LIQUIDITY};

fn pool(reserve_0: u64, reserve_1: u64, total_liquidity: u64) -> PoolMetadata {
    PoolMetadata {
        reserve_0,
        reserve_1,
        liquidity: Asset { id: Id32::zeroed(), amount: total_liquidity },
        decimals_0: 9,
        decimals_1: 9,
    }
}

#[test]
fn success_adds_liquidity_with_equal_deposit_amounts() {
    let added = preview_add_liquidity(pool(0, 0, 0), 10000, 10000);
    assert_eq!(added, 9000);
}

#[test]
fn adds_liquidity_to_make_a_more_valuable() {
    let added = preview_add_liquidity(pool(0, 0, 0), 40000, 10000);
    assert_eq!(added, 19000);
}

#[test]
fn adds_liquidity_to_make_b_more_valuable() {
    let added = preview_add_liquidity(pool(0, 0, 0), 10000, 40000);
    assert_eq!(added, 19000);
}

#[test]
fn adds_further_liquidity_without_extra_deposit_when_a_is_more_valuable() {
    let first = preview_add_liquidity(pool(0, 0, 0), 10000, 10000);
    assert_eq!(first, 9000);
    // The pool now holds 10000 of each asset and has issued 10000
    // liquidity tokens in all (9000 plus the locked minimum).
    let second = preview_add_liquidity(pool(10000, 10000, 10000), 10000, 40000);
    assert_eq!(second, 10000);
}

#[test]
fn revert_adds_liquidity_with_equal_deposit_amounts() {
    // Depositing exactly the minimum leaves nothing to issue.
    let added = preview_add_liquidity(pool(0, 0, 0), 1000, 1000);
    assert_eq!(added, 0);
}

#[test]
fn success_removes_all_liquidity_passing_exact_a_and_b_values() {
    let token_0_amount = to_9_decimal(1);
    let token_1_amount = to_9_decimal(1);
    let expected_liquidity = to_9_decimal(1) - MINIMUM_LIQUIDITY;
    let added = preview_add_liquidity(pool(0, 0, 0), token_0_amount, token_1_amount);
    assert_eq!(added, expected_liquidity);
    // Burning every issued token pays out each reserve in proportion.
    let total = to_9_decimal(1);
    let asset_0_out = proportional_value(added, token_0_amount, total);
    let asset_1_out = proportional_value(added, token_1_amount, total);
    assert_eq!(asset_0_out, token_0_amount - 1000);
    assert_eq!(asset_1_out, token_1_amount - 1000);
}

#[test]
fn removes_all_liquidity_passing_exact_a_but_not_exact_b_values() {
    let token_0_amount = to_9_decimal(1);
    let token_1_amount = to_9_decimal(4);
    let expected_liquidity = to_9_decimal(2) - MINIMUM_LIQUIDITY;
    let added = preview_add_liquidity(pool(0, 0, 0), token_0_amount, token_1_amount);
    assert_eq!(added, expected_liquidity);
    let total = to_9_decimal(2);
    let asset_0_out = proportional_value(added, token_0_amount, total);
    let asset_1_out = proportional_value(added, token_1_amount, total);
    assert_eq!(asset_0_out, token_0_amount - 500);
    assert_eq!(asset_1_out, token_1_amount - 2000);
}

#[test]
fn integer_sqrt_exact_values() {
    assert_eq!(integer_sqrt(0), 0);
    assert_eq!(integer_sqrt(1), 1);
    assert_eq!(integer_sqrt(3), 1);
    assert_eq!(integer_sqrt(4), 2);
    assert_eq!(integer_sqrt(99), 9);
    assert_eq!(integer_sqrt(100), 10);
    assert_eq!(integer_sqrt(100_000_000), 10_000);
    assert_eq!(integer_sqrt(u128::MAX), u64::MAX);
}

#[test]
fn initial_liquidity_is_geometric_mean() {
    assert_eq!(initial_liquidity(10000, 10000), 10000);
    assert_eq!(initial_liquidity(40000, 10000), 20000);
    assert_eq!(initial_liquidity(0, 10000), 0);
    // Rounded down: sqrt(2 * 3) = 2.449...
    assert_eq!(initial_liquidity(2, 3), 2);
    assert_eq!(initial_liquidity(u64::MAX, u64::MAX), u64::MAX);
}

#[test]
fn proportional_value_rounds_down() {
    assert_eq!(proportional_value(6, 10, 4), 15);
    assert_eq!(proportional_value(7, 3, 2), 10);
    assert_eq!(proportional_value(0, 10, 4), 0);
    // The product overflows 64 bits but not the 128-bit intermediate.
    assert_eq!(proportional_value(u64::MAX, u64::MAX, u64::MAX), u64::MAX);
}

#[test]
fn added_liquidity_monotone_in_each_deposit() {
    let base = preview_add_liquidity(pool(10, 20, 100), 5, 7);
    assert!(preview_add_liquidity(pool(10, 20, 100), 6, 7) >= base);
    assert!(preview_add_liquidity(pool(10, 20, 100), 5, 8) >= base);
}

#[test]
fn added_liquidity_invariant_under_scaling() {
    let base = preview_add_liquidity(pool(10, 20, 100), 5, 7);
    let scaled = preview_add_liquidity(pool(30, 60, 100), 15, 21);
    assert_eq!(scaled, base);
}

#[test]
fn initial_liquidity_scales_up_to_rounding() {
    // sqrt(2 * 3) rounds to 2; scaling both deposits by 10 lands the
    // mean within [10 * 2, 10 * (2 + 1)).
    let base = initial_liquidity(2, 3);
    assert_eq!(base, 2);
    let scaled = initial_liquidity(20, 30);
    assert_eq!(scaled, 24);
    assert!(10 * base <= scaled && scaled < 10 * (base + 1));
}

#[test]
fn added_liquidity_takes_lesser_claim() {
    // Asset 1 is overabundant: only asset 0's share is issued.
    let added = preview_add_liquidity(pool(1000, 1000, 5000), 100, 900);
    let claim_0 = proportional_value(100, 5000, 1000);
    let claim_1 = proportional_value(900, 5000, 1000);
    assert_eq!(added, claim_0);
    assert!(added <= claim_1);
    assert_eq!(added, 500);
}

#[test]
fn to_9_decimal_scales() {
    assert_eq!(to_9_decimal(0), 0);
    assert_eq!(to_9_decimal(1), 1_000_000_000);
    assert_eq!(to_9_decimal(10), 10_000_000_000);
}
