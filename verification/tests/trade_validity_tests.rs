use lighter_circuit::field::GoldilocksField;
use lighter_circuit::liquidation::RiskParameters;
use lighter_circuit::trade_validity::{
    is_valid_perps_trade, is_valid_spot_trade, OpenInterestCaps, PerpsTradeCheck, SpotTradeCheck,
};
use lighter_circuit::tx_validity::{AssetDeltaOutcome, TransferSide};

fn f(n: u64) -> GoldilocksField {
    GoldilocksField::from_canonical_u64(n)
}

fn healthy(available: i128) -> RiskParameters {
    RiskParameters {
        total_account_value: 1_000 + available,
        initial_margin_requirement: 1_000,
        maintenance_margin_requirement: 500,
        total_account_liquidation_threshold: 0,
        usdc_collateral_with_funding: 1_000_000,
        total_portfolio_value: 0,
        is_healthy: true,
    }
}

fn caps() -> OpenInterestCaps {
    OpenInterestCaps { max_open_interest: 1_000_000, max_open_interest_notional: 10_000_000 }
}

/// A trade on a perpetual market well inside every limit: price 10, multiplier 2, so a notional
/// of 20 per contract, 100 contracts open before and 110 after, limit 5_000.
fn base() -> PerpsTradeCheck {
    PerpsTradeCheck {
        is_perps_market: true,
        old_taker_position: 10,
        new_taker_position: 20,
        mark_price: f(10),
        quote_multiplier: f(2),
        open_interest: f(100),
        open_interest_limit: f(5_000),
        new_open_interest: f(110),
        is_taker_insurance_fund: false,
        is_maker_insurance_fund: false,
        is_new_taker_position_valid: true,
        is_new_maker_position_valid: true,
        is_taker_risk_change_valid: true,
        is_maker_risk_change_valid: true,
        taker_cross_risk: healthy(300),
        maker_cross_risk: healthy(300),
        taker_margin_delta: 200,
        maker_margin_delta: -50,
    }
}

fn run(c: &PerpsTradeCheck, update: bool, taker: bool, maker: bool) -> (bool, bool, bool) {
    let (mut u, mut t, mut m) = (update, taker, maker);
    is_valid_perps_trade(&mut u, &mut t, &mut m, c, &caps());
    (u, t, m)
}

#[test]
fn trade_within_limits_goes_ahead() {
    assert_eq!(run(&base(), true, false, false), (true, false, false));
}

#[test]
fn full_market_cancels_increasing_taker() {
    let mut c = base();
    c.open_interest = f(300); // notional 6_000 > 5_000
    assert_eq!(run(&c, true, false, false), (false, true, false));
}

#[test]
fn full_market_lets_reducing_taker_through() {
    let mut c = base();
    c.open_interest = f(300);
    c.new_open_interest = f(290);
    c.old_taker_position = 20;
    c.new_taker_position = 10;
    assert_eq!(run(&c, true, false, false), (true, false, false));
}

#[test]
fn full_market_cancels_flipping_taker() {
    let mut c = base();
    c.open_interest = f(300);
    c.old_taker_position = 20;
    c.new_taker_position = -5;
    assert_eq!(run(&c, true, false, false), (false, true, false));
}

#[test]
fn insurance_fund_trade_ignores_the_market_limit() {
    let mut c = base();
    c.open_interest = f(300);
    c.is_maker_insurance_fund = true;
    assert_eq!(run(&c, true, false, false), (true, false, false));
}

#[test]
fn trade_taking_notional_over_the_limit_cancels_taker() {
    let mut c = base();
    c.new_open_interest = f(251); // 5_020 > 5_000, while 2_000 was within
    assert_eq!(run(&c, true, false, false), (false, true, false));
}

#[test]
fn open_interest_over_the_exchange_cap_cancels_taker() {
    let mut c = base();
    c.open_interest_limit = f(100_000_000);
    c.new_open_interest = f(1_000_001);
    let (mut u, mut t, mut m) = (true, false, false);
    let wide = OpenInterestCaps { max_open_interest: 1_000_000, max_open_interest_notional: 1 << 40 };
    is_valid_perps_trade(&mut u, &mut t, &mut m, &c, &wide);
    assert_eq!((u, t, m), (false, true, false));
}

#[test]
fn notional_over_the_exchange_cap_resets_taker_cancel_when_check_is_off() {
    // The notional cap is tested whether or not the check runs; off a perpetual market the
    // taker's cancel flag then takes the value of the (false) enable bit.
    let mut c = base();
    c.is_perps_market = false;
    c.open_interest_limit = f(1 << 40);
    c.new_open_interest = f(600_000); // notional 12_000_000 > 10_000_000
    assert_eq!(run(&c, true, true, false), (true, false, false));
}

#[test]
fn invalid_new_taker_position_cancels_taker() {
    let mut c = base();
    c.is_new_taker_position_valid = false;
    assert_eq!(run(&c, true, false, false), (false, true, false));
}

#[test]
fn invalid_maker_risk_change_cancels_maker() {
    let mut c = base();
    c.is_maker_risk_change_valid = false;
    assert_eq!(run(&c, true, false, false), (false, false, true));
}

#[test]
fn taker_without_cross_collateral_is_cancelled() {
    let mut c = base();
    c.taker_margin_delta = 301;
    assert_eq!(run(&c, true, false, false), (false, true, false));
}

#[test]
fn negative_margin_delta_needs_no_collateral() {
    let mut c = base();
    c.taker_cross_risk = healthy(0);
    c.taker_margin_delta = -1_000_000;
    assert_eq!(run(&c, true, false, false), (true, false, false));
}

#[test]
fn spot_market_is_not_checked() {
    let mut c = base();
    c.is_perps_market = false;
    c.is_new_taker_position_valid = false;
    c.is_maker_risk_change_valid = false;
    assert_eq!(run(&c, true, false, false), (true, false, false));
}

#[test]
fn earlier_cancels_stay() {
    assert_eq!(run(&base(), true, true, false), (false, true, false));
    assert_eq!(run(&base(), true, false, true), (false, false, true));
}

#[test]
fn stopped_trade_stays_stopped() {
    let mut c = base();
    c.is_new_taker_position_valid = false;
    assert_eq!(run(&c, false, false, false), (false, false, false));
}

#[test]
fn notional_is_computed_in_the_field() {
    // 2^32 contracts at price 2^32 and multiplier 1: 2^64 wraps to 2^32 - 1 below the prime.
    let mut c = base();
    c.mark_price = f(1 << 32);
    c.quote_multiplier = f(1);
    c.open_interest = f(0);
    c.new_open_interest = f(1 << 32);
    c.open_interest_limit = f(1 << 33);
    let (mut u, mut t, mut m) = (true, false, false);
    let wide = OpenInterestCaps { max_open_interest: 1 << 40, max_open_interest_notional: 1 << 40 };
    is_valid_perps_trade(&mut u, &mut t, &mut m, &c, &wide);
    assert_eq!((u, t, m), (true, false, false));
}

fn leg(spot: u128, margined: i128) -> AssetDeltaOutcome {
    AssetDeltaOutcome {
        spot_balance_valid: true,
        side: TransferSide { spot_balance: spot, margined_balance: margined, strategy: 0 },
    }
}

fn spot() -> SpotTradeCheck {
    SpotTradeCheck {
        is_spot_market: true,
        is_taker_ask: true,
        is_base_asset_universal: false,
        is_quote_asset_universal: true,
        is_taker_unified: true,
        is_maker_unified: false,
        is_taker_collateral_negative: false,
        is_maker_collateral_negative: false,
        is_taker_risk_change_valid: true,
        is_maker_risk_change_valid: true,
        taker_ask: leg(10, 0),
        taker_bid: leg(20, 0),
        maker_ask: leg(30, 0),
        maker_bid: leg(40, 0),
    }
}

fn run_spot(c: &SpotTradeCheck, update: bool, taker: bool, maker: bool) -> (bool, bool, bool) {
    let (mut u, mut t, mut m) = (update, taker, maker);
    is_valid_spot_trade(&mut u, &mut t, &mut m, c);
    (u, t, m)
}

#[test]
fn spot_trade_with_sound_legs_goes_ahead() {
    assert_eq!(run_spot(&spot(), true, false, false), (true, false, false));
}

#[test]
fn spot_trade_is_cancelled_for_invalid_unified_risk_change() {
    let mut c = spot();
    c.is_taker_risk_change_valid = false;
    assert_eq!(run_spot(&c, true, false, false), (false, true, false));
    // A non-unified maker's risk change is not checked.
    let mut c = spot();
    c.is_maker_risk_change_valid = false;
    assert_eq!(run_spot(&c, true, false, false), (true, false, false));
    c.is_maker_unified = true;
    assert_eq!(run_spot(&c, true, false, false), (false, false, true));
}

#[test]
fn spot_leg_with_negative_margin_of_non_universal_asset_cancels() {
    // The taker asks: it sells the base asset, which is not universal.
    let mut c = spot();
    c.taker_ask = leg(0, -1);
    assert_eq!(run_spot(&c, true, false, false), (false, true, false));
    // The taker buys the universal quote asset: a negative margin there is allowed.
    let mut c = spot();
    c.taker_bid = leg(0, -1);
    assert_eq!(run_spot(&c, true, false, false), (true, false, false));
}

#[test]
fn spot_leg_over_96_bits_cancels_maker() {
    let mut c = spot();
    c.maker_bid = leg(1u128 << 96, 0);
    assert_eq!(run_spot(&c, true, false, false), (false, false, true));
}

#[test]
fn selling_universal_asset_into_negative_collateral_cancels() {
    // The taker bids: it sells the universal quote asset.
    let mut c = spot();
    c.is_taker_ask = false;
    c.is_taker_collateral_negative = true;
    assert_eq!(run_spot(&c, true, false, false), (false, true, false));
    // Asking, the taker sells the non-universal base asset: negative collateral is not checked.
    let mut c = spot();
    c.is_taker_collateral_negative = true;
    assert_eq!(run_spot(&c, true, false, false), (true, false, false));
    // The maker sells the universal quote asset when the taker asks.
    let mut c = spot();
    c.is_maker_collateral_negative = true;
    assert_eq!(run_spot(&c, true, false, false), (false, false, true));
}

#[test]
fn spot_check_is_off_for_perps_market_or_stopped_trade() {
    let mut c = spot();
    c.taker_ask = leg(0, -1);
    c.is_maker_risk_change_valid = false;
    c.is_maker_unified = true;
    c.is_spot_market = false;
    assert_eq!(run_spot(&c, true, false, false), (true, false, false));
    c.is_spot_market = true;
    assert_eq!(run_spot(&c, false, false, false), (false, false, false));
}

#[test]
fn spot_cancels_are_never_undone() {
    assert_eq!(run_spot(&spot(), true, true, false), (false, true, false));
    assert_eq!(run_spot(&spot(), true, false, true), (false, false, true));
}

#[test]
fn invalid_spot_balance_cancels() {
    let mut c = spot();
    c.maker_ask.spot_balance_valid = false;
    assert_eq!(run_spot(&c, true, false, false), (false, false, true));
}
