use vstd::prelude::*;
use vstd::arithmetic::div_mod::*;
use vstd::arithmetic::mul::*;
use crate::liquidation::pow2_96;

verus! {

/// The figures of a market that decide how much a resting order locks: the extension
/// multipliers and the two asset ids.
#[derive(Clone, Copy, Debug)]
pub struct MarketInfo {
    pub size_extension_multiplier: u64,
    pub quote_extension_multiplier: u64,
    pub base_asset_id: u64,
    pub quote_asset_id: u64,
}

/// The part of a resting order that decides what it locks.
#[derive(Clone, Copy, Debug)]
pub struct AccountOrder {
    pub remaining_base_amount: u64,
    pub price: u32,
    pub is_ask: bool,
}

/// An account's holding of one asset, with the part of it locked by resting orders.
#[derive(Clone, Copy, Debug)]
pub struct AccountAsset {
    pub index_0: u64,
    pub balance: u128,
    pub locked_balance: u128,
}

/// What an order of `base_amount` at `price` locks: the base amount scaled by the size
/// extension multiplier for an ask, by `price` times the quote extension multiplier for a bid.
pub open spec fn locked_amount(market: MarketInfo, base_amount: nat, price: nat, is_ask: bool) -> nat {
    base_amount * (if is_ask {
        market.size_extension_multiplier as nat
    } else {
        (price * market.quote_extension_multiplier) as nat
    })
}

/// The asset an order locks: the base asset for an ask, the quote asset for a bid.
pub open spec fn locked_asset(market: MarketInfo, is_ask: bool) -> u64 {
    if is_ask {
        market.base_asset_id
    } else {
        market.quote_asset_id
    }
}

/// The locked amount (kept to its low 96 bits) and the asset it is locked in. `None` when the
/// order is enabled and its locked amount reaches `2^96`, which the constraints rule out.
pub fn get_locked_amount_and_ask_asset_index(
    is_enabled: bool,
    market: &MarketInfo,
    base_amount: u64,
    price: u32,
    is_ask: bool,
) -> (r: Option<(u128, u64)>)
    ensures
        r is None <==> is_enabled && locked_amount(*market, base_amount as nat, price as nat, is_ask)
            >= pow2_96(),
        r matches Some(v) ==> v.0 == locked_amount(*market, base_amount as nat, price as nat, is_ask)
            % pow2_96() && v.1 == locked_asset(*market, is_ask),
{
    proof {
        lemma_mul_upper_bound(
            price as int,
            u32::MAX as int,
            market.quote_extension_multiplier as int,
            u64::MAX as int,
        );
        assert(u32::MAX as int * u64::MAX as int <= u128::MAX) by (nonlinear_arith);
    }
    let multiplier: u128 = if is_ask {
        market.size_extension_multiplier as u128
    } else {
        (price as u128) * (market.quote_extension_multiplier as u128)
    };
    let ghost full = locked_amount(*market, base_amount as nat, price as nat, is_ask);
    assert(full == base_amount as nat * multiplier as nat);
    let wrapped = (base_amount as u128).wrapping_mul(multiplier);
    let low: u128 = wrapped % 79228162514264337593543950336u128;
    proof {
        assert(wrapped == full % 340282366920938463463374607431768211456nat);
        lemma_mod_mod(full as int, pow2_96() as int, 4294967296);
        assert(pow2_96() * 4294967296 == 340282366920938463463374607431768211456nat);
    }
    let fits = match (base_amount as u128).checked_mul(multiplier) {
        Some(v) => v < 79228162514264337593543950336u128,
        None => false,
    };
    if is_enabled && !fits {
        return None;
    }
    let asset = if is_ask { market.base_asset_id } else { market.quote_asset_id };
    proof {
        if fits {
            lemma_small_mod(full, pow2_96());
        }
    }
    Some((low, asset))
}

/// Whether `assets[k]` is the first holding of asset `index`.
pub open spec fn is_first_match(assets: Seq<AccountAsset>, index: u64, k: int) -> bool {
    &&& 0 <= k < assets.len()
    &&& assets[k].index_0 == index
    &&& forall|j: int| 0 <= j < k ==> assets[j].index_0 != index
}

/// The holdings with `delta` added to the locked balance of the first holding of `index`; the
/// others unchanged.
pub open spec fn update_first_match(assets: Seq<AccountAsset>, index: u64, delta: int) -> Seq<
    AccountAsset,
> {
    Seq::new(
        assets.len(),
        |i: int|
            if is_first_match(assets, index, i) {
                AccountAsset { locked_balance: (assets[i].locked_balance + delta) as u128, ..assets[i] }
            } else {
                assets[i]
            },
    )
}

/// The constraints of locking `amount` more of asset `index` hold: some holding is of that
/// asset and its first one stays below `2^96`.
pub open spec fn can_lock(assets: Seq<AccountAsset>, index: u64, amount: nat) -> bool {
    exists|k: int| is_first_match(assets, index, k) && assets[k].locked_balance + amount < pow2_96()
}

/// The constraints of releasing `amount` of asset `index` hold: some holding is of that asset
/// and its first one has at least `amount` locked.
pub open spec fn can_release(assets: Seq<AccountAsset>, index: u64, amount: nat) -> bool {
    exists|k: int| is_first_match(assets, index, k) && assets[k].locked_balance >= amount
}

/// The first holding of `index`, if any.
fn find_first(assets: &Vec<AccountAsset>, index: u64) -> (r: Option<usize>)
    ensures
        r matches Some(k) ==> is_first_match(assets@, index, k as int),
        r is None ==> forall|j: int| 0 <= j < assets@.len() ==> assets@[j].index_0 != index,
{
    let mut i: usize = 0;
    while i < assets.len()
        invariant
            0 <= i <= assets@.len(),
            forall|j: int| 0 <= j < i ==> assets@[j].index_0 != index,
        decreases assets.len() - i,
    {
        if assets[i].index_0 == index {
            return Some(i);
        }
        i = i + 1;
    }
    None
}

/// A first match is unique.
proof fn lemma_first_match_unique(assets: Seq<AccountAsset>, index: u64, k: int, m: int)
    requires
        is_first_match(assets, index, k),
        is_first_match(assets, index, m),
    ensures
        k == m,
{
    if k < m {
        assert(assets[k].index_0 != index);
    } else if m < k {
        assert(assets[m].index_0 != index);
    }
}

/// Writing the locked balance of the first match at `k`.
fn set_locked(assets: &mut Vec<AccountAsset>, index: u64, k: usize, value: u128, Ghost(delta): Ghost<int>)
    requires
        is_first_match(old(assets)@, index, k as int),
        old(assets)@[k as int].locked_balance + delta == value,
    ensures
        final(assets)@ == update_first_match(old(assets)@, index, delta),
{
    let a = assets[k];
    assets.set(k, AccountAsset { locked_balance: value, ..a });
    proof {
        assert forall|i: int| 0 <= i < old(assets)@.len() implies final(assets)@[i] == update_first_match(
            old(assets)@,
            index,
            delta,
        )[i] by {
            if i != k && is_first_match(old(assets)@, index, i) {
                lemma_first_match_unique(old(assets)@, index, i, k as int);
            }
        }
        assert(final(assets)@ =~= update_first_match(old(assets)@, index, delta));
    }
}

/// Adds `amount` to the locked balance of the first holding of `index`. Returns whether the
/// constraints hold; the holdings change only when they do.
fn lock_amount(assets: &mut Vec<AccountAsset>, index: u64, amount: u128) -> (ok: bool)
    ensures
        ok == can_lock(old(assets)@, index, amount as nat),
        ok ==> final(assets)@ == update_first_match(old(assets)@, index, amount as int),
        !ok ==> final(assets)@ == old(assets)@,
{
    match find_first(assets, index) {
        None => false,
        Some(k) => {
            let cur = assets[k].locked_balance;
            proof {
                assert forall|m: int| is_first_match(assets@, index, m) implies m == k by {
                    lemma_first_match_unique(assets@, index, m, k as int);
                }
            }
            match cur.checked_add(amount) {
                Some(n) => {
                    if n < 79228162514264337593543950336u128 {
                        set_locked(assets, index, k, n, Ghost(amount as int));
                        true
                    } else {
                        false
                    }
                },
                None => false,
            }
        },
    }
}

/// Takes `amount` from the locked balance of the first holding of `index`. Returns whether
/// the constraints hold; the holdings change only when they do.
fn release_amount(assets: &mut Vec<AccountAsset>, index: u64, amount: u128) -> (ok: bool)
    ensures
        ok == can_release(old(assets)@, index, amount as nat),
        ok ==> final(assets)@ == update_first_match(old(assets)@, index, -amount),
        !ok ==> final(assets)@ == old(assets)@,
{
    match find_first(assets, index) {
        None => false,
        Some(k) => {
            let cur = assets[k].locked_balance;
            proof {
                assert forall|m: int| is_first_match(assets@, index, m) implies m == k by {
                    lemma_first_match_unique(assets@, index, m, k as int);
                }
            }
            if cur >= amount {
                set_locked(assets, index, k, cur - amount, Ghost(-amount));
                true
            } else {
                false
            }
        },
    }
}

/// Every locked balance fits its three limbs.
pub open spec fn locked_in_range(assets: Seq<AccountAsset>) -> bool {
    forall|i: int| 0 <= i < assets.len() ==> #[trigger] assets[i].locked_balance < pow2_96()
}

/// The constraints of locking for an order hold: nothing to check for a disabled order; for an
/// enabled one its locked amount stays below `2^96` and can be locked.
pub open spec fn lock_holds(
    assets: Seq<AccountAsset>,
    is_enabled: bool,
    market: MarketInfo,
    base_amount: nat,
    price: nat,
    is_ask: bool,
) -> bool {
    let amount = locked_amount(market, base_amount, price, is_ask);
    !is_enabled || (amount < pow2_96() && can_lock(assets, locked_asset(market, is_ask), amount))
}

/// The constraints of releasing for an order hold: nothing to check for a disabled order; for
/// an enabled one its locked amount stays below `2^96` and can be released.
pub open spec fn release_holds(
    assets: Seq<AccountAsset>,
    is_enabled: bool,
    market: MarketInfo,
    base_amount: nat,
    price: nat,
    is_ask: bool,
) -> bool {
    let amount = locked_amount(market, base_amount, price, is_ask);
    !is_enabled || (amount < pow2_96() && can_release(assets, locked_asset(market, is_ask), amount))
}

/// Locks what an enabled order locks in the first holding of its asset. Returns whether the
/// constraints hold (see [`lock_holds`]); the holdings change only for an enabled order whose
/// constraints hold.
pub fn increment_locked_balance_for_order(
    is_enabled: bool,
    account_order: &AccountOrder,
    market: &MarketInfo,
    account_assets: &mut Vec<AccountAsset>,
) -> (ok: bool)
    ensures
        ok == lock_holds(
            old(account_assets)@,
            is_enabled,
            *market,
            account_order.remaining_base_amount as nat,
            account_order.price as nat,
            account_order.is_ask,
        ),
        final(account_assets)@ == (if ok && is_enabled {
            update_first_match(
                old(account_assets)@,
                locked_asset(*market, account_order.is_ask),
                locked_amount(
                    *market,
                    account_order.remaining_base_amount as nat,
                    account_order.price as nat,
                    account_order.is_ask,
                ) as int,
            )
        } else {
            old(account_assets)@
        }),
        locked_in_range(old(account_assets)@) ==> locked_in_range(final(account_assets)@),
{
    let (amount, asset) = match get_locked_amount_and_ask_asset_index(
        is_enabled,
        market,
        account_order.remaining_base_amount,
        account_order.price,
        account_order.is_ask,
    ) {
        Some(v) => v,
        None => {
            return false;
        },
    };
    if !is_enabled {
        return true;
    }
    proof {
        lemma_small_mod(
            locked_amount(
                *market,
                account_order.remaining_base_amount as nat,
                account_order.price as nat,
                account_order.is_ask,
            ),
            pow2_96(),
        );
    }
    let ok = lock_amount(account_assets, asset, amount);
    proof {
        if ok {
            lemma_update_in_range(old(account_assets)@, asset, amount as int);
        }
    }
    ok
}

/// Releases what an enabled order of `base_amount` at `price` on the given side locks from the
/// first holding of its asset. Returns whether the constraints hold (see [`release_holds`]);
/// the holdings change only for an enabled order whose constraints hold.
pub(crate) fn decrement_locked_balance_for_partial_order(
    is_enabled: bool,
    market: &MarketInfo,
    is_ask: bool,
    base_amount: u64,
    price: u32,
    account_assets: &mut Vec<AccountAsset>,
) -> (ok: bool)
    ensures
        ok == release_holds(old(account_assets)@, is_enabled, *market, base_amount as nat, price as nat, is_ask),
        final(account_assets)@ == (if ok && is_enabled {
            update_first_match(
                old(account_assets)@,
                locked_asset(*market, is_ask),
                -locked_amount(*market, base_amount as nat, price as nat, is_ask),
            )
        } else {
            old(account_assets)@
        }),
        locked_in_range(old(account_assets)@) ==> locked_in_range(final(account_assets)@),
{
    let (amount, asset) = match get_locked_amount_and_ask_asset_index(
        is_enabled,
        market,
        base_amount,
        price,
        is_ask,
    ) {
        Some(v) => v,
        None => {
            return false;
        },
    };
    if !is_enabled {
        return true;
    }
    proof {
        lemma_small_mod(locked_amount(*market, base_amount as nat, price as nat, is_ask), pow2_96());
    }
    let ok = release_amount(account_assets, asset, amount);
    proof {
        if ok {
            lemma_update_in_range(old(account_assets)@, asset, -amount);
        }
    }
    ok
}

/// Releases what an enabled resting order locks from the first holding of its asset (see
/// [`decrement_locked_balance_for_partial_order`] with the order's remaining base amount).
pub fn decrement_locked_balance_for_order(
    is_enabled: bool,
    account_order: &AccountOrder,
    market: &MarketInfo,
    account_assets: &mut Vec<AccountAsset>,
) -> (ok: bool)
    ensures
        ok == release_holds(
            old(account_assets)@,
            is_enabled,
            *market,
            account_order.remaining_base_amount as nat,
            account_order.price as nat,
            account_order.is_ask,
        ),
        final(account_assets)@ == (if ok && is_enabled {
            update_first_match(
                old(account_assets)@,
                locked_asset(*market, account_order.is_ask),
                -locked_amount(
                    *market,
                    account_order.remaining_base_amount as nat,
                    account_order.price as nat,
                    account_order.is_ask,
                ),
            )
        } else {
            old(account_assets)@
        }),
        locked_in_range(old(account_assets)@) ==> locked_in_range(final(account_assets)@),
{
    decrement_locked_balance_for_partial_order(
        is_enabled,
        market,
        account_order.is_ask,
        account_order.remaining_base_amount,
        account_order.price,
        account_assets,
    )
}

/// An update that keeps the changed balance in range keeps every balance in range.
proof fn lemma_update_in_range(assets: Seq<AccountAsset>, index: u64, delta: int)
    requires
        locked_in_range(assets) ==> exists|k: int|
            is_first_match(assets, index, k) && 0 <= assets[k].locked_balance + delta < pow2_96(),
        exists|k: int| is_first_match(assets, index, k),
    ensures
        locked_in_range(assets) ==> locked_in_range(update_first_match(assets, index, delta)),
{
}

/// Locking an amount and then releasing it again is allowed and gives back the holdings.
pub proof fn lemma_lock_then_release(assets: Seq<AccountAsset>, index: u64, amount: nat)
    requires
        can_lock(assets, index, amount),
    ensures
        can_release(update_first_match(assets, index, amount as int), index, amount),
        update_first_match(update_first_match(assets, index, amount as int), index, -amount)
            == assets,
{
    let locked = update_first_match(assets, index, amount as int);
    let k = choose|k: int| is_first_match(assets, index, k) && assets[k].locked_balance + amount < pow2_96();
    assert forall|i: int| 0 <= i < assets.len() implies #[trigger] locked[i].index_0 == assets[i].index_0 by {}
    assert forall|i: int| is_first_match(locked, index, i) <==> is_first_match(assets, index, i) by {
        if 0 <= i < assets.len() {
            assert forall|j: int| 0 <= j < i implies (locked[j].index_0 != index <==> assets[j].index_0 != index) by {
                assert(locked[j].index_0 == assets[j].index_0);
            }
        }
    }
    assert(is_first_match(locked, index, k));
    assert(locked[k].locked_balance == assets[k].locked_balance + amount);
    let back = update_first_match(locked, index, -amount);
    assert forall|i: int| 0 <= i < assets.len() implies back[i] == assets[i] by {
        if is_first_match(assets, index, i) {
            lemma_first_match_unique(assets, index, i, k);
        }
    }
    assert(back =~= assets);
}

} // verus!
