use lighter_circuit::create_order::{
    CreateOrderOutcome, CreateOrderRules, CreateOrderState, OrderTypeFlags,
};
use lighter_circuit::field::GoldilocksField;
use lighter_circuit::transactions::L2CreateOrderTx;

fn f(n: u64) -> GoldilocksField {
    GoldilocksField::from_canonical_u64(n)
}

fn rules() -> CreateOrderRules {
    CreateOrderRules {
        ioc: 0,
        gtt: 1,
        post_only: 2,
        nil_trigger_price: 0,
        nil_order_expiry: 0,
        treasury_account_index: 1,
        usdc_asset_index: 3,
        public_pool_account_type: 2,
        insurance_fund_account_type: 3,
        isolated_margin: 1,
        cross_margin: 0,
        margin_set: 1,
        market_status_active: 1,
        trigger_status_na: 0,
        trigger_status_mark_price: 1,
        trigger_status_twap: 2,
        order_base_amount_bits: 48,
        order_price_bits: 32,
        timestamp_bits: 48,
    }
}

fn flags() -> OrderTypeFlags {
    OrderTypeFlags {
        is_limit_order: false,
        is_market_order: false,
        is_stop_loss_order: false,
        is_take_profit_order: false,
        is_stop_loss_limit_order: false,
        is_take_profit_limit_order: false,
        is_twap_order: false,
        is_conditional_order: false,
        is_valid_l2_create_order: true,
    }
}

fn limit() -> OrderTypeFlags {
    OrderTypeFlags { is_limit_order: true, ..flags() }
}

fn stop_loss() -> OrderTypeFlags {
    OrderTypeFlags { is_stop_loss_order: true, is_conditional_order: true, ..flags() }
}

fn twap() -> OrderTypeFlags {
    OrderTypeFlags { is_twap_order: true, ..flags() }
}

fn perps_state() -> CreateOrderState {
    CreateOrderState {
        is_perps_market: true,
        market_index: f(5),
        market_base_asset_id: f(10),
        market_quote_asset_id: f(3),
        market_status: f(1),
        ask_nonce: f(1),
        bid_nonce: f(100),
        mark_price: f(100),
        index_price: f(100),
        is_isolated_only_market: false,
        default_margin_mode_isolated: false,
        owner_account_index: f(7),
        api_key_index: f(2),
        base_slot_asset_index: f(10),
        quote_slot_asset_index: f(3),
        tx_slot_asset_index: f(3),
        base_asset_margin_mode: f(1),
        quote_asset_margin_mode: f(1),
        taker_account_type: f(0),
        taker_margin_mode: f(0),
        taker_margin_set_flag: f(0),
        is_cloid_unique: true,
        block_timestamp: f(1_000),
        pending_order_index_0: f(0),
        pending_order_index_1: f(0),
        next_order_index: f(999),
        position_tied_base_amount: f(33),
        is_base_size_and_price_valid: true,
        is_reduce_only_direction_invalid: false,
    }
}

fn order() -> L2CreateOrderTx {
    L2CreateOrderTx {
        account_index: 7,
        api_key_index: 2,
        market_index: 5,
        client_order_index: 42,
        order_type: 0,
        time_in_force: 1,
        order_expiry: 2_000,
        base_amount: 10,
        price: 100,
        is_ask: 0,
        reduce_only: 0,
        trigger_price: 0,
    }
}

fn summary(o: &CreateOrderOutcome) -> (bool, u64, u64, bool) {
    (o.success, o.trigger_status, o.calculated_base_amount.to_canonical_u64(), o.is_pending_order)
}

fn check(tx: &L2CreateOrderTx, s: &CreateOrderState, fl: &OrderTypeFlags) -> Option<(bool, u64, u64, bool)> {
    tx.verify(true, s, fl, &rules()).map(|o| summary(&o))
}

#[test]
fn limit_gtt_order_goes_ahead() {
    assert_eq!(check(&order(), &perps_state(), &limit()), Some((true, 0, 10, false)));
}

#[test]
fn limit_ioc_order_has_nil_expiry() {
    let mut tx = order();
    tx.time_in_force = 0;
    assert_eq!(check(&tx, &perps_state(), &limit()), None);
    tx.order_expiry = 0;
    assert_eq!(check(&tx, &perps_state(), &limit()), Some((true, 0, 10, false)));
}

#[test]
fn limit_gtt_order_needs_expiry() {
    let mut tx = order();
    tx.order_expiry = 0;
    assert_eq!(check(&tx, &perps_state(), &limit()), None);
}

#[test]
fn expired_order_does_not_go_ahead() {
    let mut tx = order();
    tx.order_expiry = 900;
    assert_eq!(check(&tx, &perps_state(), &limit()), Some((false, 0, 10, false)));
}

#[test]
fn duplicate_client_order_id_does_not_go_ahead() {
    let mut s = perps_state();
    s.is_cloid_unique = false;
    assert_eq!(check(&order(), &s, &limit()), Some((false, 0, 10, false)));
}

#[test]
fn market_order_rules_bind_even_when_disabled() {
    let fl = OrderTypeFlags { is_market_order: true, ..flags() };
    let tx = order();
    assert!(tx.verify(false, &perps_state(), &fl, &rules()).is_none());
    let mut tx = order();
    tx.time_in_force = 0;
    tx.order_expiry = 0;
    assert!(tx.verify(false, &perps_state(), &fl, &rules()).is_some());
}

#[test]
fn stop_loss_order_waits_in_pending_slot() {
    let mut tx = order();
    tx.time_in_force = 0;
    tx.trigger_price = 50;
    let mut s = perps_state();
    assert_eq!(check(&tx, &s, &stop_loss()), None);
    s.pending_order_index_0 = f(999);
    s.pending_order_index_1 = f(42);
    assert_eq!(check(&tx, &s, &stop_loss()), Some((true, 1, 10, true)));
}

#[test]
fn stop_loss_order_needs_perpetual_market() {
    let mut tx = order();
    tx.time_in_force = 0;
    tx.trigger_price = 50;
    let mut s = perps_state();
    s.is_perps_market = false;
    s.pending_order_index_0 = f(999);
    s.pending_order_index_1 = f(42);
    assert_eq!(check(&tx, &s, &stop_loss()), None);
}

#[test]
fn twap_order_is_gtt_without_trigger() {
    let mut s = perps_state();
    s.pending_order_index_0 = f(999);
    s.pending_order_index_1 = f(42);
    assert_eq!(check(&order(), &s, &twap()), Some((true, 2, 10, true)));
    let mut tx = order();
    tx.time_in_force = 2;
    assert_eq!(check(&tx, &s, &twap()), None);
}

#[test]
fn treasury_trades_only_spot() {
    let mut tx = order();
    tx.account_index = 1;
    let mut s = perps_state();
    s.owner_account_index = f(1);
    assert_eq!(check(&tx, &s, &limit()), None);
    s.is_perps_market = false;
    assert_eq!(check(&tx, &s, &limit()), Some((true, 0, 10, false)));
}

#[test]
fn isolated_only_market_rejects_pools_and_cross_positions() {
    let mut s = perps_state();
    s.is_isolated_only_market = true;
    s.taker_margin_mode = f(1);
    assert_eq!(check(&order(), &s, &limit()), Some((true, 0, 10, false)));
    s.taker_account_type = f(2);
    assert_eq!(check(&order(), &s, &limit()), None);
    s.taker_account_type = f(3);
    s.taker_margin_mode = f(0);
    s.taker_margin_set_flag = f(1);
    assert_eq!(check(&order(), &s, &limit()), Some((true, 0, 10, false)));
    s.taker_account_type = f(0);
    assert_eq!(check(&order(), &s, &limit()), None);
    s.taker_margin_set_flag = f(0);
    assert_eq!(check(&order(), &s, &limit()), None);
    s.default_margin_mode_isolated = true;
    assert_eq!(check(&order(), &s, &limit()), Some((true, 0, 10, false)));
}

#[test]
fn spot_order_is_not_reduce_only_and_names_base() {
    let mut s = perps_state();
    s.is_perps_market = false;
    let mut tx = order();
    tx.reduce_only = 1;
    assert_eq!(check(&tx, &s, &limit()), None);
    let mut tx = order();
    tx.base_amount = 0;
    assert_eq!(check(&tx, &s, &limit()), None);
}

#[test]
fn spot_order_by_pool_is_invalid() {
    let mut s = perps_state();
    s.is_perps_market = false;
    s.taker_account_type = f(2);
    assert_eq!(check(&order(), &s, &limit()), None);
}

#[test]
fn perps_order_without_base_uses_position_tied_amount() {
    let mut tx = order();
    tx.base_amount = 0;
    assert_eq!(check(&tx, &perps_state(), &limit()), Some((true, 0, 33, false)));
}

#[test]
fn reduce_only_against_position_does_not_go_ahead() {
    let mut tx = order();
    tx.reduce_only = 1;
    let mut s = perps_state();
    s.is_reduce_only_direction_invalid = true;
    assert_eq!(check(&tx, &s, &limit()), Some((false, 0, 10, false)));
}

#[test]
fn unacceptable_size_skips_market_checks() {
    let mut s = perps_state();
    s.is_base_size_and_price_valid = false;
    s.mark_price = f(0);
    assert_eq!(check(&order(), &s, &limit()), Some((false, 0, 10, false)));
    s.is_base_size_and_price_valid = true;
    assert_eq!(check(&order(), &s, &limit()), None);
}

#[test]
fn full_or_inactive_market_rejects_orders() {
    let mut s = perps_state();
    s.bid_nonce = f(1);
    assert_eq!(check(&order(), &s, &limit()), None);
    let mut s = perps_state();
    s.market_status = f(2);
    assert_eq!(check(&order(), &s, &limit()), None);
}
