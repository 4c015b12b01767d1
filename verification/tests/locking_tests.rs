use lighter_circuit::locking::{
    decrement_locked_balance_for_order, get_locked_amount_and_ask_asset_index,
    increment_locked_balance_for_order, AccountAsset, AccountOrder, MarketInfo,
};

fn market() -> MarketInfo {
    MarketInfo { size_extension_multiplier: 10, quote_extension_multiplier: 3, base_asset_id: 7, quote_asset_id: 3 }
}

fn holding(index: u64, locked: u128) -> AccountAsset {
    AccountAsset { index_0: index, balance: 1_000_000, locked_balance: locked }
}

fn locked(assets: &[AccountAsset]) -> Vec<u128> {
    assets.iter().map(|a| a.locked_balance).collect()
}

#[test]
fn locked_amount_of_ask_and_bid() {
    // ask: base * size multiplier, in the base asset
    assert_eq!(get_locked_amount_and_ask_asset_index(true, &market(), 5, 100, true), Some((50, 7)));
    // bid: base * price * quote multiplier, in the quote asset
    assert_eq!(get_locked_amount_and_ask_asset_index(true, &market(), 5, 100, false), Some((1500, 3)));
}

#[test]
fn locked_amount_too_wide() {
    let wide = MarketInfo { quote_extension_multiplier: u64::MAX, ..market() };
    assert_eq!(get_locked_amount_and_ask_asset_index(true, &wide, u64::MAX, u32::MAX, false), None);
    // a disabled order keeps the low 96 bits
    let r = get_locked_amount_and_ask_asset_index(false, &wide, u64::MAX, u32::MAX, false).unwrap();
    let full = (u64::MAX as u128).wrapping_mul((u32::MAX as u128) * (u64::MAX as u128));
    assert_eq!(r, (full % (1u128 << 96), 3));
}

#[test]
fn increment_locks_in_the_first_matching_holding() {
    let order = AccountOrder { remaining_base_amount: 5, price: 100, is_ask: false };
    let mut assets = vec![holding(7, 0), holding(3, 10), holding(3, 20)];
    assert!(increment_locked_balance_for_order(true, &order, &market(), &mut assets));
    assert_eq!(locked(&assets), vec![0, 1510, 20]);
}

#[test]
fn increment_then_decrement_restores() {
    let order = AccountOrder { remaining_base_amount: 5, price: 100, is_ask: true };
    let before = vec![holding(3, 4), holding(7, 9)];
    let mut assets = before.clone();
    assert!(increment_locked_balance_for_order(true, &order, &market(), &mut assets));
    assert_eq!(locked(&assets), vec![4, 59]);
    assert!(decrement_locked_balance_for_order(true, &order, &market(), &mut assets));
    assert_eq!(locked(&assets), locked(&before));
}

#[test]
fn disabled_order_changes_nothing() {
    let order = AccountOrder { remaining_base_amount: 5, price: 100, is_ask: true };
    let mut assets = vec![holding(3, 4)];
    assert!(increment_locked_balance_for_order(false, &order, &market(), &mut assets));
    assert!(decrement_locked_balance_for_order(false, &order, &market(), &mut assets));
    assert_eq!(locked(&assets), vec![4]);
}

#[test]
fn missing_asset_fails() {
    let order = AccountOrder { remaining_base_amount: 5, price: 100, is_ask: true };
    let mut assets = vec![holding(3, 4)];
    assert!(!increment_locked_balance_for_order(true, &order, &market(), &mut assets));
    assert!(!decrement_locked_balance_for_order(true, &order, &market(), &mut assets));
    assert_eq!(locked(&assets), vec![4]);
}

#[test]
fn release_beyond_locked_fails() {
    let order = AccountOrder { remaining_base_amount: 5, price: 100, is_ask: true };
    let mut assets = vec![holding(7, 49)];
    assert!(!decrement_locked_balance_for_order(true, &order, &market(), &mut assets));
    assert_eq!(locked(&assets), vec![49]);
    let mut enough = vec![holding(7, 50)];
    assert!(decrement_locked_balance_for_order(true, &order, &market(), &mut enough));
    assert_eq!(locked(&enough), vec![0]);
}

#[test]
fn lock_beyond_range_fails() {
    let order = AccountOrder { remaining_base_amount: 5, price: 100, is_ask: true };
    let mut assets = vec![holding(7, (1u128 << 96) - 50)];
    assert!(!increment_locked_balance_for_order(true, &order, &market(), &mut assets));
    assert_eq!(locked(&assets), vec![(1u128 << 96) - 50]);
    let mut fits = vec![holding(7, (1u128 << 96) - 51)];
    assert!(increment_locked_balance_for_order(true, &order, &market(), &mut fits));
    assert_eq!(locked(&fits), vec![(1u128 << 96) - 1]);
}
