use vstd::prelude::*;
use crate::field::GoldilocksField;

verus! {

/// What sizing a trade reads: whether the taker's order is a market order and an ask, the
/// taker's and the maker's prices, the taker's slippage budget (the quote it may give up to
/// price differences), and for each side whether its order is reduce-only with the size of its
/// position.
#[derive(Clone, Copy, Debug)]
pub struct TradeSizeInputs {
    pub is_market_order: bool,
    pub is_taker_ask: bool,
    pub taker_price: GoldilocksField,
    pub maker_price: GoldilocksField,
    pub slippage_budget: GoldilocksField,
    pub is_taker_reduce_only: bool,
    pub taker_position_abs: GoldilocksField,
    pub is_maker_reduce_only: bool,
    pub maker_position_abs: GoldilocksField,
}

/// The trade amount capped by the positions of reduce-only orders: first the maker's, then the
/// taker's.
pub open spec fn position_capped_amount(update: bool, amount: nat, i: TradeSizeInputs) -> nat {
    let a = if update && i.is_maker_reduce_only && i.maker_position_abs@ < amount {
        i.maker_position_abs@
    } else {
        amount
    };
    if update && i.is_taker_reduce_only && i.taker_position_abs@ < a {
        i.taker_position_abs@
    } else {
        a
    }
}

/// Whether the maker's price is worse for the taker than its own: higher for an ask, lower
/// for a bid.
pub open spec fn has_slippage(i: TradeSizeInputs) -> bool {
    (i.is_taker_ask && i.taker_price@ > i.maker_price@) || (!i.is_taker_ask && i.taker_price@
        < i.maker_price@)
}

/// The most the slippage budget allows at the price difference, or `amount` without slippage.
pub open spec fn slippage_allowed_amount(i: TradeSizeInputs, amount: nat) -> nat {
    if has_slippage(i) {
        let diff = if i.is_taker_ask {
            i.taker_price@ - i.maker_price@
        } else {
            i.maker_price@ - i.taker_price@
        };
        i.slippage_budget@ / (diff as nat)
    } else {
        amount
    }
}

/// The final trade amount: capped by reduce-only positions and, for a live market order, by
/// what the slippage budget allows.
pub open spec fn sized_amount(update: bool, amount: nat, i: TradeSizeInputs) -> nat {
    let a = position_capped_amount(update, amount, i);
    let allowed = slippage_allowed_amount(i, a);
    if update && i.is_market_order {
        if allowed < a { allowed } else { a }
    } else {
        a
    }
}

/// Sizes a trade: caps `amount` by the positions behind reduce-only orders and, for a live
/// market order, by what its slippage budget allows at the maker's price. A live market order
/// left with nothing to trade is cancelled and the trade stops. The result says whether the
/// slippage budget, and not the order, set the amount.
pub fn size_trade(
    update_status_flags: &mut bool,
    cancel_taker_order: &mut bool,
    amount: &mut GoldilocksField,
    i: &TradeSizeInputs,
) -> (too_much_slippage: bool)
    ensures
        final(amount)@ == sized_amount(*old(update_status_flags), old(amount)@, *i),
        ({
            let empty = *old(update_status_flags) && i.is_market_order && final(amount)@ == 0;
            &&& *final(cancel_taker_order) == (empty || *old(cancel_taker_order))
            &&& *final(update_status_flags) == (*old(update_status_flags) && !empty)
        }),
        too_much_slippage == ({
            let a = position_capped_amount(*old(update_status_flags), old(amount)@, *i);
            let allowed = slippage_allowed_amount(*i, a);
            *old(update_status_flags) && i.is_market_order && has_slippage(*i) && final(amount)@
                == allowed && allowed != a
        }),
        final(amount)@ <= old(amount)@,
{
    let update = *update_status_flags;
    let mut a = amount.to_canonical_u64();
    if update && i.is_maker_reduce_only && i.maker_position_abs.to_canonical_u64() < a {
        a = i.maker_position_abs.to_canonical_u64();
    }
    if update && i.is_taker_reduce_only && i.taker_position_abs.to_canonical_u64() < a {
        a = i.taker_position_abs.to_canonical_u64();
    }
    let taker = i.taker_price.to_canonical_u64();
    let maker = i.maker_price.to_canonical_u64();
    let ask_slip = i.is_taker_ask && taker > maker;
    let bid_slip = !i.is_taker_ask && taker < maker;
    let slippage = ask_slip || bid_slip;
    let allowed = if slippage {
        let diff = if ask_slip { taker - maker } else { maker - taker };
        i.slippage_budget.to_canonical_u64() / diff
    } else {
        a
    };
    let flag = update && i.is_market_order;
    let sized = if flag {
        if allowed < a { allowed } else { a }
    } else {
        a
    };
    let too_much = flag && slippage && sized == allowed && allowed != a;
    *amount = GoldilocksField::from_canonical_u64(sized);
    if flag && sized == 0 {
        *cancel_taker_order = true;
        *update_status_flags = false;
    }
    too_much
}

} // verus!
