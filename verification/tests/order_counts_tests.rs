use lighter_circuit::field::GoldilocksField;
use lighter_circuit::order_counts::{
    decrement_order_count_in_place, increment_order_count_in_place, OrderCounts,
};

const P: u64 = 18446744069414584321;
const SPOT: u64 = 1;
const PARENT: u64 = 4;
const ISOLATED: u64 = 1;

fn f(x: u64) -> GoldilocksField {
    GoldilocksField::from_canonical_u64(x)
}

fn counts(market_type: u64, margin_mode: u64) -> OrderCounts {
    OrderCounts {
        market_total_order_count: f(10),
        market_type: f(market_type),
        account_total_order_count: f(5),
        account_total_non_cross_order_count: f(2),
        position_total_position_tied_order_count: f(1),
        position_total_order_count: f(3),
        position_margin_mode: f(margin_mode),
    }
}

fn values(c: &OrderCounts) -> [u64; 5] {
    [
        c.market_total_order_count.to_canonical_u64(),
        c.account_total_order_count.to_canonical_u64(),
        c.account_total_non_cross_order_count.to_canonical_u64(),
        c.position_total_position_tied_order_count.to_canonical_u64(),
        c.position_total_order_count.to_canonical_u64(),
    ]
}

fn inc(c: &mut OrderCounts, flag: bool, trigger: u64, reduce_only: u64) {
    increment_order_count_in_place(c, flag, f(trigger), f(reduce_only), f(SPOT), f(PARENT), f(ISOLATED));
}

fn dec(c: &mut OrderCounts, flag: bool, trigger: u64, reduce_only: u64) {
    decrement_order_count_in_place(c, flag, f(trigger), f(reduce_only), f(SPOT), f(PARENT), f(ISOLATED));
}

#[test]
fn spot_order_counts_as_non_cross() {
    let mut c = counts(SPOT, 0);
    inc(&mut c, true, 0, 1);
    assert_eq!(values(&c), [11, 6, 3, 1, 3]);
}

#[test]
fn perps_cross_reduce_only_order_is_position_tied() {
    let mut c = counts(0, 0);
    inc(&mut c, true, 0, 1);
    assert_eq!(values(&c), [11, 6, 2, 2, 4]);
}

#[test]
fn perps_parent_order_is_not_position_tied() {
    let mut c = counts(0, 0);
    inc(&mut c, true, PARENT, 1);
    assert_eq!(values(&c), [11, 6, 2, 1, 4]);
    let mut d = counts(0, 0);
    inc(&mut d, true, 0, 0);
    assert_eq!(values(&d), [11, 6, 2, 1, 4]);
}

#[test]
fn perps_isolated_order_is_non_cross() {
    let mut c = counts(0, ISOLATED);
    inc(&mut c, true, 0, 0);
    assert_eq!(values(&c), [11, 6, 3, 1, 4]);
}

#[test]
fn disabled_flag_changes_nothing() {
    let mut c = counts(0, ISOLATED);
    inc(&mut c, false, 0, 1);
    dec(&mut c, false, 0, 1);
    assert_eq!(values(&c), [10, 5, 2, 1, 3]);
}

#[test]
fn decrement_undoes_increment() {
    for (mt, mm, trig, ro) in [(SPOT, 0, 0, 1), (0, 0, 0, 1), (0, ISOLATED, PARENT, 1), (0, ISOLATED, 0, 0)] {
        let mut c = counts(mt, mm);
        let before = values(&c);
        inc(&mut c, true, trig, ro);
        dec(&mut c, true, trig, ro);
        assert_eq!(values(&c), before);
    }
}

#[test]
fn decrement_below_zero_wraps_in_the_field() {
    let mut c = counts(0, 0);
    c.position_total_order_count = f(0);
    dec(&mut c, true, 0, 0);
    assert_eq!(c.position_total_order_count.to_canonical_u64(), P - 1);
}
