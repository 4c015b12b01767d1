use vstd::prelude::*;
use crate::field::{GoldilocksField, p, to_field};
use crate::locking::{
    AccountAsset, AccountOrder, MarketInfo, release_holds, update_first_match, locked_asset,
    locked_amount, locked_in_range, decrement_locked_balance_for_partial_order,
};

verus! {

/// The flags a self-trade reduction decides on: whether the trade is a self trade to reduce,
/// whether the taker is post-only, whether the market is spot, and whether the maker's order
/// is a limit order.
#[derive(Clone, Copy, Debug)]
pub struct SelfTradeFlags {
    pub is_self_trade: bool,
    pub is_post_only: bool,
    pub is_spot: bool,
    pub is_maker_limit_order: bool,
}

/// Whether the reduction runs: the trade is live, a self trade, and the taker is not
/// post-only (a post-only taker is cancelled instead).
pub open spec fn reduction_runs(update: bool, f: SelfTradeFlags) -> bool {
    update && f.is_self_trade && !f.is_post_only
}

/// Reduces a self trade: a live post-only taker trading with itself is cancelled and the trade
/// stops; otherwise both the taker's pending size and the maker order's remaining size lose
/// the trade amount (in the field), a spot maker limit order releases what that amount locked,
/// the taker is cancelled when its pending size reaches zero, the maker when its remaining size
/// does, and the trade stops. Returns whether the release's constraints hold.
pub fn apply_self_trade_reduce(
    f: &SelfTradeFlags,
    optimistic_trade_amount: &GoldilocksField,
    update_status_flags: &mut bool,
    cancel_taker_order: &mut bool,
    cancel_maker_order: &mut bool,
    pending_size: &mut GoldilocksField,
    account_order: &mut AccountOrder,
    market: &MarketInfo,
    account_assets: &mut Vec<AccountAsset>,
) -> (ok: bool)
    requires
        old(account_order).remaining_base_amount < p(),
    ensures
        ({
            let post_only = *old(update_status_flags) && f.is_self_trade && f.is_post_only;
            let runs = reduction_runs(*old(update_status_flags), *f);
            let amount = optimistic_trade_amount@;
            let new_pending = to_field(old(pending_size)@ - amount as int);
            let new_remaining = to_field(old(account_order).remaining_base_amount - amount as int);
            let releases = runs && f.is_spot && f.is_maker_limit_order;
            &&& final(pending_size)@ == (if runs { new_pending } else { old(pending_size)@ })
            &&& final(account_order).remaining_base_amount == (if runs {
                new_remaining
            } else {
                old(account_order).remaining_base_amount as nat
            })
            &&& final(account_order).price == old(account_order).price
            &&& final(account_order).is_ask == old(account_order).is_ask
            &&& ok == release_holds(
                old(account_assets)@,
                releases,
                *market,
                amount,
                old(account_order).price as nat,
                old(account_order).is_ask,
            )
            &&& final(account_assets)@ == (if ok && releases {
                update_first_match(
                    old(account_assets)@,
                    locked_asset(*market, old(account_order).is_ask),
                    -locked_amount(*market, amount, old(account_order).price as nat, old(account_order).is_ask),
                )
            } else {
                old(account_assets)@
            })
            &&& *final(cancel_taker_order) == (post_only || (runs && new_pending == 0)
                || *old(cancel_taker_order))
            &&& *final(cancel_maker_order) == ((runs && new_remaining == 0)
                || *old(cancel_maker_order))
            &&& *final(update_status_flags) == (*old(update_status_flags) && !f.is_self_trade)
        }),
        locked_in_range(old(account_assets)@) ==> locked_in_range(final(account_assets)@),
{
    let post_only = *update_status_flags && f.is_self_trade && f.is_post_only;
    if post_only {
        *cancel_taker_order = *update_status_flags;
        *update_status_flags = false;
    }
    let runs = *update_status_flags && f.is_self_trade;
    let amount = optimistic_trade_amount.to_canonical_u64();
    if runs {
        *pending_size = pending_size.sub(optimistic_trade_amount);
        let remaining = GoldilocksField::from_canonical_u64(account_order.remaining_base_amount);
        account_order.remaining_base_amount = remaining.sub(optimistic_trade_amount).to_canonical_u64();
    }
    let releases = runs && f.is_spot && f.is_maker_limit_order;
    let ok = decrement_locked_balance_for_partial_order(
        releases,
        market,
        account_order.is_ask,
        amount,
        account_order.price,
        account_assets,
    );
    if runs && pending_size.is_zero() {
        *cancel_taker_order = *update_status_flags;
    }
    if runs && account_order.remaining_base_amount == 0 {
        *cancel_maker_order = *update_status_flags;
    }
    if runs {
        *update_status_flags = false;
    }
    ok
}

} // verus!
