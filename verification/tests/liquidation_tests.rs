use lighter_circuit::liquidation::{
    get_asset_zero_price, get_available_usdc_collateral, get_funding_delta_for_position_and_market,
    get_position_zero_price, AccountPosition, MarginedAsset, MarketDetails, MarketExtensions,
    RiskParameters,
};

fn market(qm: u32, prefix: i128) -> MarketDetails {
    MarketDetails {
        quote_multiplier: qm,
        funding_rate_prefix_sum: prefix,
        mark_price: 0,
        maintenance_margin_fraction: 0,
    }
}

fn risk() -> RiskParameters {
    RiskParameters {
        total_account_value: 0,
        initial_margin_requirement: 0,
        maintenance_margin_requirement: 0,
        total_account_liquidation_threshold: 0,
        usdc_collateral_with_funding: 0,
        total_portfolio_value: 0,
        is_healthy: false,
    }
}

#[test]
fn funding_delta_long_and_short() {
    let pos = AccountPosition { position: 10, last_funding_rate_prefix_sum: 500 };
    assert_eq!(get_funding_delta_for_position_and_market(&pos, &market(3, 200)), Some(9000));
    let short = AccountPosition { position: -10, last_funding_rate_prefix_sum: 500 };
    assert_eq!(get_funding_delta_for_position_and_market(&short, &market(3, 200)), Some(-9000));
    let rising = AccountPosition { position: -10, last_funding_rate_prefix_sum: 100 };
    assert_eq!(get_funding_delta_for_position_and_market(&rising, &market(3, 200)), Some(3000));
}

#[test]
fn funding_delta_zero_cases() {
    let flat = AccountPosition { position: 0, last_funding_rate_prefix_sum: 7 };
    assert_eq!(get_funding_delta_for_position_and_market(&flat, &market(3, -5)), Some(0));
    let same = AccountPosition { position: 4, last_funding_rate_prefix_sum: 7 };
    assert_eq!(get_funding_delta_for_position_and_market(&same, &market(3, 7)), Some(0));
}

#[test]
fn funding_delta_overflowing_limbs_is_rejected() {
    // the rate difference needs more than 64 bits
    let pos = AccountPosition { position: 1, last_funding_rate_prefix_sum: 1i128 << 64 };
    assert_eq!(get_funding_delta_for_position_and_market(&pos, &market(1, 0)), None);
    // position times multiplier needs more than 96 bits
    let big = AccountPosition { position: 1i128 << 95, last_funding_rate_prefix_sum: 0 };
    assert_eq!(get_funding_delta_for_position_and_market(&big, &market(2, 0)), None);
    // product needs more than 96 bits
    let p = AccountPosition { position: 1i128 << 60, last_funding_rate_prefix_sum: 1i128 << 40 };
    assert_eq!(get_funding_delta_for_position_and_market(&p, &market(1, 0)), None);
    let ok = AccountPosition { position: 1i128 << 60, last_funding_rate_prefix_sum: 1i128 << 35 };
    assert_eq!(get_funding_delta_for_position_and_market(&ok, &market(1, 0)), Some(1i128 << 95));
}

#[test]
fn usdc_collateral_healthy_account() {
    let r = RiskParameters {
        total_account_value: 1000,
        initial_margin_requirement: 300,
        usdc_collateral_with_funding: 500,
        is_healthy: true,
        ..risk()
    };
    assert_eq!(get_available_usdc_collateral(&r), Some(500));
    let r2 = RiskParameters { usdc_collateral_with_funding: 900, ..r };
    assert_eq!(get_available_usdc_collateral(&r2), Some(700));
}

#[test]
fn usdc_collateral_unhealthy_or_negative_is_zero() {
    let r = RiskParameters {
        total_account_value: 1000,
        initial_margin_requirement: 300,
        usdc_collateral_with_funding: 500,
        is_healthy: false,
        ..risk()
    };
    assert_eq!(get_available_usdc_collateral(&r), Some(0));
    let neg = RiskParameters { is_healthy: true, usdc_collateral_with_funding: -500, ..r };
    assert_eq!(get_available_usdc_collateral(&neg), Some(0));
}

#[test]
fn usdc_collateral_healthy_below_margin_has_no_witness() {
    let r = RiskParameters {
        total_account_value: 100,
        initial_margin_requirement: 300,
        usdc_collateral_with_funding: 500,
        is_healthy: true,
        ..risk()
    };
    assert_eq!(get_available_usdc_collateral(&r), None);
}

#[test]
fn position_zero_price_long() {
    // mrt = 5 * 10 = 50; A = 100 * 50 = 5000; B = 100 * 2 * 20 * (+1)(+1) = 4000; D = 1000
    let pos = AccountPosition { position: 3, last_funding_rate_prefix_sum: 0 };
    let md = MarketDetails { mark_price: 100, maintenance_margin_fraction: 2, ..market(1, 0) };
    let r = RiskParameters {
        maintenance_margin_requirement: 5,
        total_account_liquidation_threshold: 20,
        ..risk()
    };
    // long: ceil(1000 / 50) = 20
    assert_eq!(get_position_zero_price(&pos, &md, &r, 10, 1_000_000), Some(20));
    // capped by the largest order price
    assert_eq!(get_position_zero_price(&pos, &md, &r, 10, 15), Some(15));
}

#[test]
fn position_zero_price_short_and_nonpositive() {
    let md = MarketDetails { mark_price: 100, maintenance_margin_fraction: 2, ..market(1, 0) };
    let r = RiskParameters {
        maintenance_margin_requirement: 7,
        total_account_liquidation_threshold: 20,
        ..risk()
    };
    // short: B = 100 * 2 * 20 * (-1) = -4000; D = 7000 + 4000 = 11000; floor(11000 / 70) = 157
    let short = AccountPosition { position: -3, last_funding_rate_prefix_sum: 0 };
    assert_eq!(get_position_zero_price(&short, &md, &r, 10, 1_000_000), Some(157));
    // long with D <= 0 gives 1
    let r2 = RiskParameters { total_account_liquidation_threshold: 100, ..r };
    let long = AccountPosition { position: 3, last_funding_rate_prefix_sum: 0 };
    assert_eq!(get_position_zero_price(&long, &md, &r2, 10, 1_000_000), Some(1));
}

#[test]
fn position_zero_price_overflow_is_rejected() {
    let md = MarketDetails { mark_price: u32::MAX, maintenance_margin_fraction: 1, ..market(1, 0) };
    let r = RiskParameters { maintenance_margin_requirement: u128::MAX / 2, ..risk() };
    let pos = AccountPosition { position: 1, last_funding_rate_prefix_sum: 0 };
    assert_eq!(get_position_zero_price(&pos, &md, &r, 10, 100), None);
}

#[test]
fn asset_zero_price_rounds_up_and_caps() {
    let m = MarketExtensions { size_extension_multiplier: 10, quote_extension_multiplier: 3 };
    let a = MarginedAsset { index_price: 7, index_price_divider: 2, liquidation_factor: 5, loan_to_value: 0 };
    // numerator 10 * 7 * 5 = 350, denominator 3 * 2 * 4 = 24, ceil = 15
    assert_eq!(get_asset_zero_price(&m, &a, 4, 1000), Some(15));
    assert_eq!(get_asset_zero_price(&m, &a, 4, 9), Some(9));
    // a zero price is raised to 1
    let z = MarginedAsset { index_price: 0, ..a };
    assert_eq!(get_asset_zero_price(&m, &z, 4, 1000), Some(1));
    // a zero denominator keeps the numerator
    assert_eq!(get_asset_zero_price(&m, &a, 0, 1000), Some(350));
}
