use lighter_circuit::field::GoldilocksField;
use lighter_circuit::matching::{
    fits_bits, get_next_order_nonce, is_not_valid_reduce_only_direction, get_order_book_path_delta, get_order_from_register, get_quote, BaseRegisterInfo,
    Order, OrderBookNode,
};

const P: u64 = 18446744069414584321;

fn f(x: u64) -> GoldilocksField {
    GoldilocksField::from_canonical_u64(x)
}

fn node(h: u64, ab: u64, aq: u64, bb: u64, bq: u64) -> OrderBookNode {
    OrderBookNode {
        sibling_child_hash: [f(h), f(h + 1), f(h + 2), f(h + 3)],
        ask_base_sum: f(ab),
        ask_quote_sum: f(aq),
        bid_base_sum: f(bb),
        bid_quote_sum: f(bq),
    }
}

fn order(ab: u64, aq: u64, bb: u64, bq: u64) -> Order {
    Order {
        price_index: f(10),
        nonce_index: f(3),
        ask_base_sum: f(ab),
        ask_quote_sum: f(aq),
        bid_base_sum: f(bb),
        bid_quote_sum: f(bq),
    }
}

fn sums(n: &OrderBookNode) -> [u64; 4] {
    [
        n.ask_base_sum.to_canonical_u64(),
        n.ask_quote_sum.to_canonical_u64(),
        n.bid_base_sum.to_canonical_u64(),
        n.bid_quote_sum.to_canonical_u64(),
    ]
}

#[test]
fn path_delta_shifts_every_level_by_the_leaf_change() {
    let before = order(5, 50, 0, 0);
    let after = order(2, 20, 0, 0);
    let path = vec![node(100, 8, 80, 1, 10), node(200, 20, 200, 4, 40), node(300, 30, 300, 9, 90)];
    let out = get_order_book_path_delta(&before, &path, &after, 48, 60).unwrap();
    assert_eq!(out.len(), 3);
    assert_eq!(sums(&out[0]), [5, 50, 1, 10]);
    assert_eq!(sums(&out[1]), [17, 170, 4, 40]);
    assert_eq!(sums(&out[2]), [27, 270, 9, 90]);
    for i in 0..3 {
        assert_eq!(
            out[i].sibling_child_hash.map(|x| x.to_canonical_u64()),
            path[i].sibling_child_hash.map(|x| x.to_canonical_u64())
        );
    }
}

#[test]
fn path_delta_unchanged_leaf_keeps_path() {
    let o = order(4, 40, 1, 11);
    let path = vec![node(1, 6, 60, 2, 12), node(2, 9, 99, 7, 70)];
    let out = get_order_book_path_delta(&o, &path, &o, 32, 32).unwrap();
    assert_eq!(sums(&out[0]), sums(&path[0]));
    assert_eq!(sums(&out[1]), sums(&path[1]));
}

#[test]
fn path_delta_root_range_check_fails() {
    let before = order(0, 0, 0, 0);
    let after = order(0, 0, 0, 16);
    let path = vec![node(1, 0, 0, 0, 0)];
    // the root bid quote becomes 16, which needs 5 bits
    assert!(get_order_book_path_delta(&before, &path, &after, 8, 4).is_none());
    assert!(get_order_book_path_delta(&before, &path, &after, 8, 5).is_some());
}

#[test]
fn path_delta_wraps_in_the_field() {
    // removing more than the path held wraps around the prime (the range check then fails)
    let before = order(5, 0, 0, 0);
    let after = order(0, 0, 0, 0);
    let path = vec![node(1, 3, 0, 0, 0)];
    assert!(get_order_book_path_delta(&before, &path, &after, 63, 63).is_none());
}

#[test]
fn quote_sums_orders_ahead() {
    let before = order(0, 0, 2, 20);
    // leaf sibling and two levels
    let path = vec![node(1, 3, 30, 5, 50), node(2, 10, 100, 11, 110), node(3, 14, 140, 20, 200)];
    // taker on the bid side (is_ask = false) meets asks where the helper bit is set
    let helper = vec![true, false, true];
    let (size, quote) = get_quote(false, &before, &path, &helper);
    // level 1: helper false -> 0; level 2: 14 - 10 = 4; sibling: helper true -> 3 - 0 = 3
    assert_eq!(size.to_canonical_u64(), 7);
    assert_eq!(quote.to_canonical_u64(), 70);
    // ask side meets bids where the helper bit is clear
    let (size, quote) = get_quote(true, &before, &path, &helper);
    // level 1: 11 - 5 = 6; level 2: helper set -> 0; sibling: helper set -> 0
    assert_eq!(size.to_canonical_u64(), 6);
    assert_eq!(quote.to_canonical_u64(), 60);
}

#[test]
fn order_from_register_places_amounts_on_its_side() {
    let reg = BaseRegisterInfo {
        pending_size: f(7),
        pending_price: f(300),
        pending_nonce: f(9),
        pending_is_ask: true,
    };
    let o = get_order_from_register(&reg);
    assert_eq!(o.ask_base_sum.to_canonical_u64(), 7);
    assert_eq!(o.ask_quote_sum.to_canonical_u64(), 2100);
    assert_eq!(o.bid_base_sum.to_canonical_u64(), 0);
    assert_eq!(o.bid_quote_sum.to_canonical_u64(), 0);
    assert_eq!(o.price_index.to_canonical_u64(), 300);
    assert_eq!(o.nonce_index.to_canonical_u64(), 9);
    let bid = get_order_from_register(&BaseRegisterInfo { pending_is_ask: false, ..reg });
    assert_eq!(bid.ask_base_sum.to_canonical_u64(), 0);
    assert_eq!(bid.bid_base_sum.to_canonical_u64(), 7);
    assert_eq!(bid.bid_quote_sum.to_canonical_u64(), 2100);
}

#[test]
fn order_quote_wraps_in_the_field() {
    let reg = BaseRegisterInfo {
        pending_size: f(1u64 << 32),
        pending_price: f(1u64 << 32),
        pending_nonce: f(0),
        pending_is_ask: false,
    };
    let o = get_order_from_register(&reg);
    assert_eq!(o.bid_quote_sum.to_canonical_u64(), (1u64 << 32) - 1);
    let _ = P;
}

#[test]
fn range_check_bits() {
    assert!(fits_bits(255, 8));
    assert!(!fits_bits(256, 8));
    assert!(fits_bits(0, 0));
    assert!(!fits_bits(1, 0));
    assert!(fits_bits(u64::MAX >> 1, 63));
}

#[test]
fn path_delta_reverted_leaf_gives_back_path() {
    let path = vec![node(1, 10, 20, 30, 40), node(5, 100, 200, 300, 400), node(9, 1000, 2000, 3000, 4000)];
    let before = order(2, 4, 6, 8);
    let after = order(7, 1, 9, 0);
    let moved = get_order_book_path_delta(&before, &path, &after, 60, 60).unwrap();
    let back = get_order_book_path_delta(&after, &moved, &before, 60, 60).unwrap();
    for (a, b) in back.iter().zip(path.iter()) {
        assert_eq!(sums(a), sums(b));
        assert_eq!(a.sibling_child_hash[0].to_canonical_u64(), b.sibling_child_hash[0].to_canonical_u64());
    }
}

#[test]
fn next_order_nonce_picks_the_side() {
    assert_eq!(get_next_order_nonce(&f(5), &f(9), true).to_canonical_u64(), 5);
    assert_eq!(get_next_order_nonce(&f(5), &f(9), false).to_canonical_u64(), 9);
}

#[test]
fn reduce_only_direction() {
    let long = f(1);
    let short = f(P - 1);
    let flat = f(0);
    assert!(!is_not_valid_reduce_only_direction(&long, true));
    assert!(is_not_valid_reduce_only_direction(&long, false));
    assert!(!is_not_valid_reduce_only_direction(&short, false));
    assert!(is_not_valid_reduce_only_direction(&short, true));
    assert!(is_not_valid_reduce_only_direction(&flat, true));
    assert!(is_not_valid_reduce_only_direction(&flat, false));
}
