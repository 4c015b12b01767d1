use vstd::prelude::*;
use crate::field::{GoldilocksField, to_field, p};
use crate::tx_validity::{AssetDeltaOutcome, side_commits, side_commits_exec};
use crate::liquidation::{
    RiskParameters, abs_int, sign_int, abs_i128, available_usdc_collateral,
    get_available_usdc_collateral,
};

verus! {

/// The exchange-wide open-interest ceilings of a perpetual market: the most contracts it may
/// hold open and the most notional value they may carry.
#[derive(Clone, Copy, Debug)]
pub struct OpenInterestCaps {
    pub max_open_interest: u64,
    pub max_open_interest_notional: u64,
}

/// What the perpetual-trade check reads: the market's kind and open-interest figures, the
/// taker's position before and after the trade, both accounts' kinds, the validity of the new
/// positions and risk changes, both accounts' cross-margin figures and their margin deltas.
#[derive(Clone, Copy, Debug)]
pub struct PerpsTradeCheck {
    pub is_perps_market: bool,
    pub old_taker_position: i128,
    pub new_taker_position: i128,
    pub mark_price: GoldilocksField,
    pub quote_multiplier: GoldilocksField,
    pub open_interest: GoldilocksField,
    pub open_interest_limit: GoldilocksField,
    pub new_open_interest: GoldilocksField,
    pub is_taker_insurance_fund: bool,
    pub is_maker_insurance_fund: bool,
    pub is_new_taker_position_valid: bool,
    pub is_new_maker_position_valid: bool,
    pub is_taker_risk_change_valid: bool,
    pub is_maker_risk_change_valid: bool,
    pub taker_cross_risk: RiskParameters,
    pub maker_cross_risk: RiskParameters,
    pub taker_margin_delta: i128,
    pub maker_margin_delta: i128,
}

/// The notional value of `open_interest` contracts at the mark price, computed in the field.
pub open spec fn open_interest_notional(c: PerpsTradeCheck, open_interest: nat) -> nat {
    to_field(open_interest * to_field(c.mark_price@ * c.quote_multiplier@ as int) as int)
}

/// Whether an account's cross collateral covers a margin delta: a negative delta frees
/// collateral, a non-negative one must not exceed what the account can still draw.
pub open spec fn covers_margin_delta(risk: RiskParameters, delta: i128) -> bool {
    available_usdc_collateral(risk) >= abs_int(delta as int) || delta < 0
}

/// The check runs when the trade is still live and the market is a perpetual one.
pub open spec fn perps_check_enabled(update: bool, c: PerpsTradeCheck) -> bool {
    update && c.is_perps_market
}

/// Whether the taker's position grows in size or changes side.
pub open spec fn taker_increases_or_flips(c: PerpsTradeCheck) -> bool {
    abs_int(c.new_taker_position as int) >= abs_int(c.old_taker_position as int)
        || -sign_int(c.old_taker_position as int) == sign_int(c.new_taker_position as int)
}

/// The reasons the taker's order is cancelled: the market's notional open interest is already
/// over its limit and the taker does not reduce, or this trade takes it over the limit (neither
/// unless an insurance fund trades), the open interest passes the exchange cap, the new notional
/// passes the exchange notional cap (this one whether or not the check runs), or the taker's new
/// position, risk change or cross collateral is not acceptable.
pub open spec fn perps_taker_cancelled(update: bool, c: PerpsTradeCheck, caps: OpenInterestCaps) -> bool {
    let enabled = perps_check_enabled(update, c);
    let old_notional = open_interest_notional(c, c.open_interest@);
    let new_notional = open_interest_notional(c, c.new_open_interest@);
    let insurance_fund_trade = c.is_taker_insurance_fund || c.is_maker_insurance_fund;
    let full = old_notional > c.open_interest_limit@;
    ||| enabled && full && taker_increases_or_flips(c) && !insurance_fund_trade
    ||| enabled && !full && new_notional > c.open_interest_limit@ && !insurance_fund_trade
    ||| enabled && c.new_open_interest@ > caps.max_open_interest
    ||| new_notional > caps.max_open_interest_notional
    ||| enabled && !c.is_new_taker_position_valid
    ||| enabled && !c.is_taker_risk_change_valid
    ||| enabled && !covers_margin_delta(c.taker_cross_risk, c.taker_margin_delta)
}

/// The reasons the maker's order is cancelled: its new position, risk change or cross
/// collateral is not acceptable.
pub open spec fn perps_maker_cancelled(update: bool, c: PerpsTradeCheck) -> bool {
    let enabled = perps_check_enabled(update, c);
    ||| enabled && !c.is_new_maker_position_valid
    ||| enabled && !c.is_maker_risk_change_valid
    ||| enabled && !covers_margin_delta(c.maker_cross_risk, c.maker_margin_delta)
}

/// Whether the cross-margin figures can be read at all: a healthy account's value covers its
/// initial margin requirement.
pub open spec fn cross_risk_readable(risk: RiskParameters) -> bool {
    !(risk.is_healthy && abs_int(risk.total_account_value as int) < risk.initial_margin_requirement)
}

fn covers_margin_delta_exec(risk: &RiskParameters, delta: i128) -> (r: bool)
    requires
        cross_risk_readable(*risk),
    ensures
        r == covers_margin_delta(*risk, delta),
{
    let available = match get_available_usdc_collateral(risk) {
        Some(v) => v,
        None => 0,
    };
    available >= abs_i128(delta) || delta < 0
}

fn sign_i128(x: i128) -> (r: i8)
    ensures
        r as int == sign_int(x as int),
{
    if x < 0 {
        -1
    } else if x == 0 {
        0
    } else {
        1
    }
}

/// Checks a perpetual trade and cancels the taker's or the maker's order when it breaks the
/// open-interest limits or leaves an account in an unacceptable state. A cancelled order is
/// marked in `cancel_taker_order` / `cancel_maker_order`, and the trade goes on only while
/// `update_status_flags` holds and neither order is cancelled.
pub fn is_valid_perps_trade(
    update_status_flags: &mut bool,
    cancel_taker_order: &mut bool,
    cancel_maker_order: &mut bool,
    c: &PerpsTradeCheck,
    caps: &OpenInterestCaps,
)
    requires
        caps.max_open_interest < p(),
        caps.max_open_interest_notional < p(),
        cross_risk_readable(c.taker_cross_risk),
        cross_risk_readable(c.maker_cross_risk),
    ensures
        *final(cancel_taker_order) == (if perps_taker_cancelled(*old(update_status_flags), *c, *caps) {
            perps_check_enabled(*old(update_status_flags), *c)
        } else {
            *old(cancel_taker_order)
        }),
        *final(cancel_maker_order) == (*old(cancel_maker_order) || perps_maker_cancelled(
            *old(update_status_flags),
            *c,
        )),
        *final(update_status_flags) == (*old(update_status_flags) && !*final(cancel_taker_order)
            && !*final(cancel_maker_order)),
        perps_check_enabled(*old(update_status_flags), *c) && *old(cancel_taker_order)
            ==> *final(cancel_taker_order),
        *old(cancel_maker_order) ==> *final(cancel_maker_order),
        *final(update_status_flags) ==> *old(update_status_flags),
{
    let is_enabled = *update_status_flags && c.is_perps_market;

    let new_abs = abs_i128(c.new_taker_position);
    let old_abs = abs_i128(c.old_taker_position);
    let old_sign = sign_i128(c.old_taker_position);
    let new_sign = sign_i128(c.new_taker_position);
    let flipped = (old_sign == -1 && new_sign == 1) || (old_sign == 1 && new_sign == -1) || (
    old_sign == 0 && new_sign == 0);
    let increase_or_flip = new_abs >= old_abs || flipped;

    let mult = c.mark_price.mul(&c.quote_multiplier);
    let old_notional = c.open_interest.mul(&mult).to_canonical_u64();
    let new_notional = c.new_open_interest.mul(&mult).to_canonical_u64();
    let limit = c.open_interest_limit.to_canonical_u64();

    let insurance_fund_trade = c.is_taker_insurance_fund || c.is_maker_insurance_fund;
    let full = old_notional > limit;

    let mut cancel_taker = full && increase_or_flip && !insurance_fund_trade && is_enabled;
    cancel_taker = cancel_taker || (!full && new_notional > limit && !insurance_fund_trade
        && is_enabled);
    cancel_taker = cancel_taker || (c.new_open_interest.to_canonical_u64() > caps.max_open_interest
        && is_enabled);
    cancel_taker = cancel_taker || new_notional > caps.max_open_interest_notional;
    cancel_taker = cancel_taker || (is_enabled && !c.is_new_taker_position_valid);
    cancel_taker = cancel_taker || (is_enabled && !c.is_taker_risk_change_valid);
    let taker_covered = covers_margin_delta_exec(&c.taker_cross_risk, c.taker_margin_delta);
    cancel_taker = cancel_taker || (is_enabled && !taker_covered);
    if cancel_taker {
        *cancel_taker_order = is_enabled;
    }

    let mut cancel_maker = is_enabled && !c.is_new_maker_position_valid;
    cancel_maker = cancel_maker || (is_enabled && !c.is_maker_risk_change_valid);
    let maker_covered = covers_margin_delta_exec(&c.maker_cross_risk, c.maker_margin_delta);
    cancel_maker = cancel_maker || (is_enabled && !maker_covered);
    if cancel_maker {
        *cancel_maker_order = is_enabled;
    }

    *update_status_flags = *update_status_flags && !*cancel_taker_order;
    *update_status_flags = *update_status_flags && !*cancel_maker_order;
}


/// What the spot-trade check reads: the market's kind, the taker's side, whether the base and
/// quote assets are universal, whether each account is unified, whether each account's USDC
/// collateral turns negative after the trade, whether each risk change is acceptable, and what
/// applying the trade's four asset deltas did (the taker's sold and bought asset, the maker's
/// sold and bought asset).
#[derive(Clone, Copy, Debug)]
pub struct SpotTradeCheck {
    pub is_spot_market: bool,
    pub is_taker_ask: bool,
    pub is_base_asset_universal: bool,
    pub is_quote_asset_universal: bool,
    pub is_taker_unified: bool,
    pub is_maker_unified: bool,
    pub is_taker_collateral_negative: bool,
    pub is_maker_collateral_negative: bool,
    pub is_taker_risk_change_valid: bool,
    pub is_maker_risk_change_valid: bool,
    pub taker_ask: AssetDeltaOutcome,
    pub taker_bid: AssetDeltaOutcome,
    pub maker_ask: AssetDeltaOutcome,
    pub maker_bid: AssetDeltaOutcome,
}

/// Whether the asset the taker sells is universal: the base asset when the taker asks, the
/// quote asset when it bids (the maker buys that same asset).
pub open spec fn taker_ask_asset_universal(c: SpotTradeCheck) -> bool {
    if c.is_taker_ask { c.is_base_asset_universal } else { c.is_quote_asset_universal }
}

/// Whether the asset the taker buys (and the maker sells) is universal.
pub open spec fn taker_bid_asset_universal(c: SpotTradeCheck) -> bool {
    if c.is_taker_ask { c.is_quote_asset_universal } else { c.is_base_asset_universal }
}

/// The spot check runs when the trade is still live and the market is a spot one.
pub open spec fn spot_check_enabled(update: bool, c: SpotTradeCheck) -> bool {
    update && c.is_spot_market
}

/// The taker's side of a spot trade stands: both of its asset legs can be committed, it does
/// not sell a universal asset into negative USDC collateral, and a unified taker's risk
/// change is acceptable.
pub open spec fn spot_taker_valid(c: SpotTradeCheck) -> bool {
    let ask_ok = side_commits(c.taker_ask, taker_ask_asset_universal(c));
    let bid_ok = side_commits(c.taker_bid, taker_bid_asset_universal(c));
    let (base_ok, quote_ok) = if c.is_taker_ask { (ask_ok, bid_ok) } else { (bid_ok, ask_ok) };
    &&& base_ok && !(c.is_base_asset_universal && c.is_taker_ask && c.is_taker_collateral_negative)
    &&& quote_ok && !(c.is_quote_asset_universal && !c.is_taker_ask
        && c.is_taker_collateral_negative)
    &&& !(c.is_taker_unified && !c.is_taker_risk_change_valid)
}

/// The maker's side of a spot trade stands, as for the taker with the sides swapped.
pub open spec fn spot_maker_valid(c: SpotTradeCheck) -> bool {
    let ask_ok = side_commits(c.maker_ask, taker_bid_asset_universal(c));
    let bid_ok = side_commits(c.maker_bid, taker_ask_asset_universal(c));
    let (base_ok, quote_ok) = if c.is_taker_ask { (bid_ok, ask_ok) } else { (ask_ok, bid_ok) };
    &&& base_ok && !(c.is_base_asset_universal && !c.is_taker_ask
        && c.is_maker_collateral_negative)
    &&& quote_ok && !(c.is_quote_asset_universal && c.is_taker_ask
        && c.is_maker_collateral_negative)
    &&& !(c.is_maker_unified && !c.is_maker_risk_change_valid)
}

/// Checks a spot trade and cancels the taker's or the maker's order when its side does not
/// stand ([`spot_taker_valid`], [`spot_maker_valid`]); the trade goes on only while
/// `update_status_flags` holds and neither order is cancelled. A cancel is never undone, and
/// a unified account whose risk change is not acceptable always has its order cancelled.
pub fn is_valid_spot_trade(
    update_status_flags: &mut bool,
    cancel_taker_order: &mut bool,
    cancel_maker_order: &mut bool,
    c: &SpotTradeCheck,
)
    ensures
        *final(cancel_taker_order) == (*old(cancel_taker_order) || (spot_check_enabled(
            *old(update_status_flags),
            *c,
        ) && !spot_taker_valid(*c))),
        *final(cancel_maker_order) == (*old(cancel_maker_order) || (spot_check_enabled(
            *old(update_status_flags),
            *c,
        ) && !spot_maker_valid(*c))),
        *final(update_status_flags) == (*old(update_status_flags) && !*final(cancel_taker_order)
            && !*final(cancel_maker_order)),
        *old(cancel_taker_order) ==> *final(cancel_taker_order),
        *old(cancel_maker_order) ==> *final(cancel_maker_order),
        spot_check_enabled(*old(update_status_flags), *c) && c.is_taker_unified
            && !c.is_taker_risk_change_valid ==> *final(cancel_taker_order)
            && !*final(update_status_flags),
        spot_check_enabled(*old(update_status_flags), *c) && c.is_maker_unified
            && !c.is_maker_risk_change_valid ==> *final(cancel_maker_order)
            && !*final(update_status_flags),
{
    let is_enabled = *update_status_flags && c.is_spot_market;
    let ask_universal = if c.is_taker_ask {
        c.is_base_asset_universal
    } else {
        c.is_quote_asset_universal
    };
    let bid_universal = if c.is_taker_ask {
        c.is_quote_asset_universal
    } else {
        c.is_base_asset_universal
    };
    let valid_taker_ask = side_commits_exec(&c.taker_ask, ask_universal);
    let valid_taker_bid = side_commits_exec(&c.taker_bid, bid_universal);
    let valid_maker_ask = side_commits_exec(&c.maker_ask, bid_universal);
    let valid_maker_bid = side_commits_exec(&c.maker_bid, ask_universal);

    let mut valid_taker_base = if c.is_taker_ask { valid_taker_ask } else { valid_taker_bid };
    let mut valid_taker_quote = if c.is_taker_ask { valid_taker_bid } else { valid_taker_ask };
    let mut valid_maker_base = if c.is_taker_ask { valid_maker_bid } else { valid_maker_ask };
    let mut valid_maker_quote = if c.is_taker_ask { valid_maker_ask } else { valid_maker_bid };

    valid_taker_base = valid_taker_base && !(c.is_base_asset_universal && c.is_taker_ask
        && c.is_taker_collateral_negative);
    valid_taker_quote = valid_taker_quote && !(c.is_quote_asset_universal && !c.is_taker_ask
        && c.is_taker_collateral_negative);
    let taker_risk_ok = !(c.is_taker_unified && !c.is_taker_risk_change_valid);
    let valid_taker = valid_taker_base && valid_taker_quote && taker_risk_ok;
    *cancel_taker_order = (is_enabled && !valid_taker) || *cancel_taker_order;
    *update_status_flags = *update_status_flags && !*cancel_taker_order;

    valid_maker_base = valid_maker_base && !(c.is_base_asset_universal && !c.is_taker_ask
        && c.is_maker_collateral_negative);
    valid_maker_quote = valid_maker_quote && !(c.is_quote_asset_universal && c.is_taker_ask
        && c.is_maker_collateral_negative);
    let maker_risk_ok = !(c.is_maker_unified && !c.is_maker_risk_change_valid);
    let valid_maker = valid_maker_base && valid_maker_quote && maker_risk_ok;
    *cancel_maker_order = (is_enabled && !valid_maker) || *cancel_maker_order;
    *update_status_flags = *update_status_flags && !*cancel_maker_order;
}

} // verus!
