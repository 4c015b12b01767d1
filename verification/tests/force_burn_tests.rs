use lighter_circuit::field::GoldilocksField;
use lighter_circuit::force_burn::{ForceBurnRules, ForceBurnState};
use lighter_circuit::liquidation::RiskParameters;
use lighter_circuit::transactions::L2ForceBurnSharesTx;
use lighter_circuit::share_book::{apply_force_burn, PoolShareBook};

fn f(n: u64) -> GoldilocksField {
    GoldilocksField::from_canonical_u64(n)
}

fn risk(tav: i128, imr: u128, usdc: i128, tpv: i128, healthy: bool) -> RiskParameters {
    RiskParameters {
        total_account_value: tav,
        initial_margin_requirement: imr,
        maintenance_margin_requirement: 0,
        total_account_liquidation_threshold: 0,
        usdc_collateral_with_funding: usdc,
        total_portfolio_value: tpv,
        is_healthy: healthy,
    }
}

fn rules() -> ForceBurnRules {
    ForceBurnRules {
        nil_account_index: 1 << 40,
        usdc_asset_index: 3,
        lit_asset_index: 2,
        max_burn_usdc_bits: 60,
        usdc_to_collateral_multiplier: 1,
        fee_tick: 100,
        lit_to_mint_shares_multiplier: 1,
        usdc_to_lit_conversion_rate: 1,
        initial_pool_share_value: 1,
        initial_staking_share_value: 1,
    }
}

/// A pool of 1_000 shares worth 2_000 (two per share) with a 10% operator fee; the depositor
/// holds 100 shares bought for 100 (one per share).
fn state() -> ForceBurnState {
    ForceBurnState {
        share_owner_account_index: f(5),
        share_owner_master_account_index: f(9),
        is_share_owner_insurance_fund: true,
        api_key_index: f(1),
        liquidity_pool_account_index: f(6),
        config_liquidity_pool_index: f(5),
        config_staking_pool_index: f(7),
        staking_pool_account_index: f(7),
        usdc_slot_asset_index: f(3),
        stake_slot_asset_index: f(2),
        is_stake_asset_empty: false,
        is_pool_in_liquidation: false,
        pool_total_shares: f(1_000),
        pool_operator_fee: f(10),
        pool_strategy_risk: risk(2_000, 1_000, 5_000, 2_000, true),
        pool_cross_risk: risk(2_000, 0, 0, 2_000, true),
        owned_shares: f(100),
        principal_amount: f(100),
        staked_shares: f(0),
        staking_pool_total_shares: f(10),
        staking_pool_stake_balance: vec![1_000],
        stake_extension_multiplier: vec![1],
    }
}

fn tx(shares: i64) -> L2ForceBurnSharesTx {
    L2ForceBurnSharesTx { account_index: 5, api_key_index: 1, depositor_index: 6, share_amount: shares }
}

fn summary(o: &lighter_circuit::force_burn::ForceBurnOutcome) -> (u64, u64, u64, u64) {
    (
        o.operator_fee_share.to_canonical_u64(),
        o.shares_to_burn.to_canonical_u64(),
        o.shares_to_burn_usdc_value.to_canonical_u64(),
        o.new_principal_amount.to_canonical_u64(),
    )
}

#[test]
fn profitable_burn_pays_the_operator_fee_in_shares() {
    // 50 shares are worth 100 and cost 50: a profit of 50, of which the operator takes
    // 50 * 10 * 1_000 / (100 * 2_000) = 2 shares; 48 are burned for 96 and the principal halves.
    let o = tx(50).verify(true, &state(), &rules()).unwrap();
    assert_eq!(summary(&o), (2, 48, 96, 50));
}

#[test]
fn burn_without_profit_pays_no_fee() {
    let mut s = state();
    s.principal_amount = f(300);
    let o = tx(50).verify(true, &s, &rules()).unwrap();
    assert_eq!(summary(&o), (0, 50, 100, 150));
}

#[test]
fn burn_of_more_than_owned_is_invalid() {
    assert!(tx(101).verify(true, &state(), &rules()).is_none());
    assert!(tx(100).verify(true, &state(), &rules()).is_some());
}

#[test]
fn burn_of_nothing_is_invalid_only_when_enabled() {
    assert!(tx(0).verify(true, &state(), &rules()).is_none());
    assert!(tx(0).verify(false, &state(), &rules()).is_some());
}

#[test]
fn burn_from_pool_in_liquidation_is_invalid() {
    let mut s = state();
    s.is_pool_in_liquidation = true;
    assert!(tx(50).verify(true, &s, &rules()).is_none());
}

#[test]
fn burn_from_non_insurance_fund_is_invalid() {
    let mut s = state();
    s.is_share_owner_insurance_fund = false;
    assert!(tx(50).verify(true, &s, &rules()).is_none());
}

#[test]
fn burn_beyond_what_the_pool_can_burn_is_invalid() {
    // The strategy account can draw 30, so the pool can burn 30 * 1_000 / 2_000 = 15 shares.
    let mut s = state();
    s.pool_strategy_risk = risk(1_030, 1_000, 5_000, 2_000, true);
    assert!(tx(16).verify(true, &s, &rules()).is_none());
    assert!(tx(15).verify(true, &s, &rules()).is_some());
}

#[test]
fn staked_lit_must_not_exceed_principal_left() {
    // The depositor stakes all 10 staking shares over a balance of 1_000: 1_000 LIT allows more
    // than the 50 principal left after the burn.
    let mut s = state();
    s.staked_shares = f(10);
    assert!(tx(50).verify(true, &s, &rules()).is_none());
    s.staking_pool_stake_balance = vec![50];
    assert!(tx(50).verify(true, &s, &rules()).is_some());
}

#[test]
fn unreadable_strategy_figures_fail_even_when_disabled() {
    let mut s = state();
    s.pool_strategy_risk = risk(500, 1_000, 5_000, 2_000, true);
    assert!(tx(50).verify(false, &s, &rules()).is_none());
}

#[test]
fn share_amount_over_the_burn_width_fails() {
    assert!(tx(1 << 61).verify(false, &state(), &rules()).is_none());
}

#[test]
fn burn_signed_by_other_account_is_invalid() {
    let mut t = tx(50);
    t.depositor_index = 7;
    assert!(t.verify(true, &state(), &rules()).is_none());
    assert!(t.verify(false, &state(), &rules()).is_some());
}


#[test]
fn forced_burn_is_booked() {
    let o = tx(50).verify(true, &state(), &rules()).unwrap();
    let mut b = PoolShareBook {
        total_shares: f(1_000),
        operator_shares: f(200),
        depositor_shares: f(100),
        depositor_principal: f(100),
        entry_timestamp: f(11),
    };
    apply_force_burn(&mut b, true, &o);
    assert_eq!(b.total_shares.to_canonical_u64(), 952);
    assert_eq!(b.operator_shares.to_canonical_u64(), 202);
    assert_eq!(b.depositor_shares.to_canonical_u64(), 50);
    assert_eq!(b.depositor_principal.to_canonical_u64(), 50);
    assert_eq!(b.entry_timestamp.to_canonical_u64(), 11);
    // Shares held by neither stay at 1_000 - 200 - 100 = 700.
    assert_eq!(
        b.total_shares.sub(&b.operator_shares).sub(&b.depositor_shares).to_canonical_u64(),
        700
    );
}

#[test]
fn failed_burn_books_nothing() {
    let o = tx(50).verify(true, &state(), &rules()).unwrap();
    let mut b = PoolShareBook {
        total_shares: f(1_000),
        operator_shares: f(200),
        depositor_shares: f(100),
        depositor_principal: f(100),
        entry_timestamp: f(11),
    };
    apply_force_burn(&mut b, false, &o);
    assert_eq!(b.total_shares.to_canonical_u64(), 1_000);
    assert_eq!(b.operator_shares.to_canonical_u64(), 200);
    assert_eq!(b.depositor_shares.to_canonical_u64(), 100);
}
