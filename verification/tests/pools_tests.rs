use lighter_circuit::liquidation::RiskParameters;
use lighter_circuit::pools::{
    get_available_shares_to_burn_for_public_pool, get_available_shares_to_burn_for_staking_pool,
    get_shares_asset_value_for_staking_pool, get_shares_usdc_value_for_public_pool,
};

fn value(d: &[u32]) -> u128 {
    let mut v: u128 = 0;
    for x in d.iter().rev() {
        v = (v << 32) + *x as u128;
    }
    v
}

fn risk(tav: i128, imr: u128, usdc: i128, tpv: i128, healthy: bool) -> RiskParameters {
    RiskParameters {
        total_account_value: tav,
        initial_margin_requirement: imr,
        maintenance_margin_requirement: 0,
        total_account_liquidation_threshold: 0,
        usdc_collateral_with_funding: usdc,
        total_portfolio_value: tpv,
        is_healthy: healthy,
    }
}

#[test]
fn staking_burn_is_proportional_to_available_balance() {
    let r = get_available_shares_to_burn_for_staking_pool(1000, &vec![500], &vec![2000]);
    assert_eq!((r.to_canonical_u64() as u128), 250);
}

#[test]
fn staking_burn_rounds_down() {
    let r = get_available_shares_to_burn_for_staking_pool(10, &vec![1], &vec![3]);
    assert_eq!((r.to_canonical_u64() as u128), 3);
}

#[test]
fn staking_burn_with_empty_balance_is_zero() {
    let r = get_available_shares_to_burn_for_staking_pool(1000, &vec![500], &vec![]);
    assert_eq!((r.to_canonical_u64() as u128), 0);
    let r = get_available_shares_to_burn_for_staking_pool(1000, &vec![500], &vec![0, 0]);
    assert_eq!((r.to_canonical_u64() as u128), 0);
}

#[test]
fn staking_burn_never_exceeds_total_shares() {
    for (avail, bal) in [(0u32, 7u32), (7, 7), (6, 7), (1, 1_000_000)] {
        let r = get_available_shares_to_burn_for_staking_pool(1_000_000, &vec![avail], &vec![bal]);
        assert!(r.to_canonical_u64() <= 1_000_000);
    }
    let r = get_available_shares_to_burn_for_staking_pool(1_000_000, &vec![9, 9], &vec![9, 9]);
    assert_eq!(r.to_canonical_u64(), 1_000_000);
}

#[test]
fn staking_burn_is_read_into_the_field() {
    // the quotient u64::MAX is reduced modulo the prime
    let r = get_available_shares_to_burn_for_staking_pool(u64::MAX, &vec![9, 9], &vec![9, 9]);
    assert_eq!(r.to_canonical_u64(), u64::MAX - 18446744069414584321);
    // a quotient above 64 bits: 2^64 * 3 mod p = 3 * (2^32 - 1)
    let r = get_available_shares_to_burn_for_staking_pool(3, &vec![0, 0, 1], &vec![1]);
    assert_eq!(r.to_canonical_u64(), 3 * ((1u64 << 32) - 1));
}

#[test]
fn staking_share_value_of_empty_pool_uses_initial_value() {
    let r = get_shares_asset_value_for_staking_pool(0, &vec![123], &vec![4], 7, 1_000_000);
    assert_eq!(value(&r), 7_000_000);
}

#[test]
fn staking_share_value_divides_by_total_times_multiplier() {
    let r = get_shares_asset_value_for_staking_pool(10, &vec![1000], &vec![2], 3, 1_000_000);
    assert_eq!(value(&r), 150);
}

#[test]
fn staking_share_value_with_large_numbers() {
    // share_amount * 2^64 / (1 * 1)
    let r = get_shares_asset_value_for_staking_pool(1, &vec![0, 0, 1], &vec![1], u64::MAX, 0);
    assert_eq!(r, vec![0, 0, u32::MAX, u32::MAX]);
}

#[test]
fn staking_share_value_zero_multiplier_is_zero() {
    let r = get_shares_asset_value_for_staking_pool(10, &vec![1000], &vec![], 3, 5);
    assert_eq!(value(&r), 0);
}

#[test]
fn public_pool_share_value_uses_portfolio_magnitude() {
    let r = get_shares_usdc_value_for_public_pool(&risk(0, 0, 0, -5000, false), 100, 10, 9, 2);
    assert_eq!(value(&r), 250);
    let r = get_shares_usdc_value_for_public_pool(&risk(0, 0, 0, 5000, false), 100, 10, 9, 2);
    assert_eq!(value(&r), 250);
}

#[test]
fn public_pool_share_value_of_empty_pool() {
    let r = get_shares_usdc_value_for_public_pool(&risk(0, 0, 0, 5000, false), 0, 10, 9, 2);
    assert_eq!(value(&r), 90);
}

#[test]
fn public_pool_share_value_of_extreme_portfolio() {
    let r = get_shares_usdc_value_for_public_pool(&risk(0, 0, 0, i128::MIN, false), 1, 2, 0, 1);
    // 2 * 2^127
    assert_eq!(r, vec![0, 0, 0, 0, 1]);
}

#[test]
fn public_burn_scales_available_collateral() {
    let strategy = risk(10_000, 4_000, 5_000, 0, true);
    let cross = risk(0, 0, 0, 20_000, false);
    let r = get_available_shares_to_burn_for_public_pool(&strategy, &cross, 300).unwrap();
    assert_eq!((r.to_canonical_u64() as u128), 75);
}

#[test]
fn public_burn_with_zero_portfolio_is_zero() {
    let strategy = risk(10_000, 4_000, 5_000, 0, true);
    let cross = risk(0, 0, 0, 0, false);
    let r = get_available_shares_to_burn_for_public_pool(&strategy, &cross, 300).unwrap();
    assert_eq!((r.to_canonical_u64() as u128), 0);
}

#[test]
fn public_burn_undefined_for_healthy_account_below_margin() {
    let strategy = risk(3_000, 4_000, 5_000, 0, true);
    let cross = risk(0, 0, 0, 20_000, false);
    assert!(get_available_shares_to_burn_for_public_pool(&strategy, &cross, 300).is_none());
}

#[test]
fn public_burn_of_unhealthy_account_is_zero() {
    let strategy = risk(3_000, 4_000, 5_000, 0, false);
    let cross = risk(0, 0, 0, 20_000, false);
    let r = get_available_shares_to_burn_for_public_pool(&strategy, &cross, 300).unwrap();
    assert_eq!((r.to_canonical_u64() as u128), 0);
}
