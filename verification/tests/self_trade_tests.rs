use lighter_circuit::field::GoldilocksField;
use lighter_circuit::locking::{AccountAsset, AccountOrder, MarketInfo};
use lighter_circuit::self_trade::{apply_self_trade_reduce, SelfTradeFlags};

fn f(n: u64) -> GoldilocksField {
    GoldilocksField::from_canonical_u64(n)
}

fn market() -> MarketInfo {
    MarketInfo {
        size_extension_multiplier: 10,
        quote_extension_multiplier: 1,
        base_asset_id: 1,
        quote_asset_id: 2,
    }
}

fn assets() -> Vec<AccountAsset> {
    vec![
        AccountAsset { index_0: 1, balance: 1_000, locked_balance: 500 },
        AccountAsset { index_0: 2, balance: 1_000, locked_balance: 0 },
    ]
}

struct Outcome {
    ok: bool,
    update: bool,
    cancel_taker: bool,
    cancel_maker: bool,
    pending: u64,
    remaining: u64,
    locked: u128,
}

fn run(flags: SelfTradeFlags, amount: u64, pending: u64, remaining: u64) -> Outcome {
    let (mut u, mut t, mut m) = (true, false, false);
    let mut p = f(pending);
    let mut order = AccountOrder { remaining_base_amount: remaining, price: 7, is_ask: true };
    let mut a = assets();
    let ok = apply_self_trade_reduce(
        &flags,
        &f(amount),
        &mut u,
        &mut t,
        &mut m,
        &mut p,
        &mut order,
        &market(),
        &mut a,
    );
    Outcome {
        ok,
        update: u,
        cancel_taker: t,
        cancel_maker: m,
        pending: p.to_canonical_u64(),
        remaining: order.remaining_base_amount,
        locked: a[0].locked_balance,
    }
}

fn flags(post_only: bool) -> SelfTradeFlags {
    SelfTradeFlags { is_self_trade: true, is_post_only: post_only, is_spot: true, is_maker_limit_order: true }
}

#[test]
fn post_only_self_trade_cancels_taker_only() {
    let o = run(flags(true), 5, 20, 30);
    assert!(o.ok);
    assert_eq!((o.update, o.cancel_taker, o.cancel_maker), (false, true, false));
    assert_eq!((o.pending, o.remaining, o.locked), (20, 30, 500));
}

#[test]
fn self_trade_reduces_both_sides_and_releases_lock() {
    let o = run(flags(false), 5, 20, 30);
    assert!(o.ok);
    assert_eq!((o.update, o.cancel_taker, o.cancel_maker), (false, false, false));
    // The ask releases 5 * 10 of the base asset.
    assert_eq!((o.pending, o.remaining, o.locked), (15, 25, 450));
}

#[test]
fn self_trade_filling_the_taker_cancels_it() {
    let o = run(flags(false), 20, 20, 30);
    assert_eq!((o.cancel_taker, o.cancel_maker), (true, false));
    let o = run(flags(false), 30, 40, 30);
    assert_eq!((o.cancel_taker, o.cancel_maker), (false, true));
    assert_eq!(o.locked, 200);
}

#[test]
fn perps_self_trade_releases_nothing() {
    let mut fl = flags(false);
    fl.is_spot = false;
    let o = run(fl, 5, 20, 30);
    assert_eq!((o.pending, o.remaining, o.locked), (15, 25, 500));
}

#[test]
fn releasing_more_than_locked_fails() {
    let o = run(flags(false), 60, 100, 100);
    assert!(!o.ok);
    assert_eq!(o.locked, 500);
}

#[test]
fn no_self_trade_changes_nothing() {
    let mut fl = flags(false);
    fl.is_self_trade = false;
    let o = run(fl, 5, 20, 30);
    assert!(o.ok);
    assert_eq!((o.update, o.cancel_taker, o.cancel_maker), (true, false, false));
    assert_eq!((o.pending, o.remaining, o.locked), (20, 30, 500));
}
