use lighter_circuit::field::GoldilocksField;
use lighter_circuit::trade_size::{size_trade, TradeSizeInputs};

fn f(n: u64) -> GoldilocksField {
    GoldilocksField::from_canonical_u64(n)
}

fn inputs() -> TradeSizeInputs {
    TradeSizeInputs {
        is_market_order: true,
        is_taker_ask: false,
        taker_price: f(100),
        maker_price: f(100),
        slippage_budget: f(0),
        is_taker_reduce_only: false,
        taker_position_abs: f(0),
        is_maker_reduce_only: false,
        maker_position_abs: f(0),
    }
}

fn run(i: &TradeSizeInputs, amount: u64) -> (u64, bool, bool, bool) {
    let (mut u, mut c) = (true, false);
    let mut a = f(amount);
    let slip = size_trade(&mut u, &mut c, &mut a, i);
    (a.to_canonical_u64(), slip, u, c)
}

#[test]
fn trade_at_taker_price_keeps_its_amount() {
    assert_eq!(run(&inputs(), 50), (50, false, true, false));
}

#[test]
fn reduce_only_orders_are_capped_by_positions() {
    let mut i = inputs();
    i.is_maker_reduce_only = true;
    i.maker_position_abs = f(30);
    assert_eq!(run(&i, 50).0, 30);
    i.is_taker_reduce_only = true;
    i.taker_position_abs = f(20);
    assert_eq!(run(&i, 50).0, 20);
    i.taker_position_abs = f(40);
    assert_eq!(run(&i, 50).0, 30);
}

#[test]
fn bid_market_order_is_capped_by_slippage_budget() {
    // The taker bids 100 and meets a maker at 104: a budget of 90 allows 90 / 4 = 22.
    let mut i = inputs();
    i.maker_price = f(104);
    i.slippage_budget = f(90);
    assert_eq!(run(&i, 50), (22, true, true, false));
    // With a budget for more than the order, the order sets the amount.
    i.slippage_budget = f(400);
    assert_eq!(run(&i, 50), (50, false, true, false));
}

#[test]
fn ask_market_order_slips_on_lower_maker_price() {
    let mut i = inputs();
    i.is_taker_ask = true;
    i.taker_price = f(110);
    i.maker_price = f(100);
    i.slippage_budget = f(35);
    assert_eq!(run(&i, 50), (3, true, true, false));
}

#[test]
fn exhausted_slippage_budget_cancels_taker() {
    let mut i = inputs();
    i.maker_price = f(104);
    i.slippage_budget = f(3);
    assert_eq!(run(&i, 50), (0, true, false, true));
}

#[test]
fn limit_order_ignores_slippage_budget() {
    let mut i = inputs();
    i.is_market_order = false;
    i.maker_price = f(104);
    assert_eq!(run(&i, 50), (50, false, true, false));
}

#[test]
fn stopped_trade_is_not_resized() {
    let mut i = inputs();
    i.is_maker_reduce_only = true;
    i.maker_position_abs = f(30);
    let (mut u, mut c) = (false, false);
    let mut a = f(50);
    assert!(!size_trade(&mut u, &mut c, &mut a, &i));
    assert_eq!((a.to_canonical_u64(), u, c), (50, false, false));
}
