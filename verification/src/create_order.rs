use vstd::prelude::*;
use vstd::arithmetic::power2::pow2;
use crate::field::{GoldilocksField, p, i64_field};
use crate::matching::fits_bits;
use crate::transactions::{L2CreateOrderTx, l2_create_order_tx_values};

verus! {

/// The codes and widths the order rules compare against: the time-in-force codes, the nil
/// trigger price and expiry, the treasury account, the USDC asset, the public-pool and
/// insurance-fund account kinds, the isolated and cross margin modes and the margin-set flag,
/// the active market status, the trigger statuses, and the widths of base amounts, prices and
/// timestamps.
#[derive(Clone, Copy, Debug)]
pub struct CreateOrderRules {
    pub ioc: u64,
    pub gtt: u64,
    pub post_only: u64,
    pub nil_trigger_price: u64,
    pub nil_order_expiry: u64,
    pub treasury_account_index: u64,
    pub usdc_asset_index: u64,
    pub public_pool_account_type: u64,
    pub insurance_fund_account_type: u64,
    pub isolated_margin: u64,
    pub cross_margin: u64,
    pub margin_set: u64,
    pub market_status_active: u64,
    pub trigger_status_na: u64,
    pub trigger_status_mark_price: u64,
    pub trigger_status_twap: u64,
    pub order_base_amount_bits: u32,
    pub order_price_bits: u32,
    pub timestamp_bits: u32,
}

/// The rules' codes are field constants and their widths are below 64 bits.
pub open spec fn create_order_rules_valid(r: CreateOrderRules) -> bool {
    &&& r.ioc < p() && r.gtt < p() && r.post_only < p()
    &&& r.nil_trigger_price < p() && r.nil_order_expiry < p()
    &&& r.treasury_account_index < p() && r.usdc_asset_index < p()
    &&& r.public_pool_account_type < p() && r.insurance_fund_account_type < p()
    &&& r.isolated_margin < p() && r.cross_margin < p() && r.margin_set < p()
    &&& r.market_status_active < p()
    &&& r.trigger_status_na < p() && r.trigger_status_mark_price < p()
    &&& r.trigger_status_twap < p()
    &&& r.order_base_amount_bits < 64 && r.order_price_bits < 64 && r.timestamp_bits < 64
}

/// The classes an order type falls in, as the account-order type decoder gives them.
#[derive(Clone, Copy, Debug)]
pub struct OrderTypeFlags {
    pub is_limit_order: bool,
    pub is_market_order: bool,
    pub is_stop_loss_order: bool,
    pub is_take_profit_order: bool,
    pub is_stop_loss_limit_order: bool,
    pub is_take_profit_limit_order: bool,
    pub is_twap_order: bool,
    pub is_conditional_order: bool,
    pub is_valid_l2_create_order: bool,
}

/// What the order check reads of the transaction state and of the helpers around it: the
/// market's kind, index, base and quote assets, status and nonces, its mark and index prices
/// and margin flags; the owner's account index, the API key, the assets in the base, quote and
/// transaction slots and the margin modes of the base and quote assets; the taker's account
/// kind, margin mode and margin-set flag; whether the client order id is unique; the block
/// time; the pending-order slot's two indices; the next order index of the order's side; the
/// base amount tied to the taker's position; whether the order's base amount and price are
/// acceptable; and whether a reduce-only order points the wrong way for the taker's position.
#[derive(Clone, Copy, Debug)]
pub struct CreateOrderState {
    pub is_perps_market: bool,
    pub market_index: GoldilocksField,
    pub market_base_asset_id: GoldilocksField,
    pub market_quote_asset_id: GoldilocksField,
    pub market_status: GoldilocksField,
    pub ask_nonce: GoldilocksField,
    pub bid_nonce: GoldilocksField,
    pub mark_price: GoldilocksField,
    pub index_price: GoldilocksField,
    pub is_isolated_only_market: bool,
    pub default_margin_mode_isolated: bool,
    pub owner_account_index: GoldilocksField,
    pub api_key_index: GoldilocksField,
    pub base_slot_asset_index: GoldilocksField,
    pub quote_slot_asset_index: GoldilocksField,
    pub tx_slot_asset_index: GoldilocksField,
    pub base_asset_margin_mode: GoldilocksField,
    pub quote_asset_margin_mode: GoldilocksField,
    pub taker_account_type: GoldilocksField,
    pub taker_margin_mode: GoldilocksField,
    pub taker_margin_set_flag: GoldilocksField,
    pub is_cloid_unique: bool,
    pub block_timestamp: GoldilocksField,
    pub pending_order_index_0: GoldilocksField,
    pub pending_order_index_1: GoldilocksField,
    pub next_order_index: GoldilocksField,
    pub position_tied_base_amount: GoldilocksField,
    pub is_base_size_and_price_valid: bool,
    pub is_reduce_only_direction_invalid: bool,
}

/// What the check decides of a new order: whether it goes ahead, its trigger status, its base
/// amount (the position-tied one for a non-conditional order without one) and whether it waits
/// in the pending-order slot.
#[derive(Clone, Copy, Debug)]
pub struct CreateOrderOutcome {
    pub success: bool,
    pub trigger_status: u64,
    pub calculated_base_amount: GoldilocksField,
    pub is_pending_order: bool,
}

/// The order's trigger status: mark price for conditional orders, TWAP for TWAP orders, none
/// otherwise.
pub open spec fn order_trigger_status(f: OrderTypeFlags, r: CreateOrderRules) -> nat {
    if f.is_conditional_order {
        r.trigger_status_mark_price as nat
    } else if f.is_twap_order {
        r.trigger_status_twap as nat
    } else {
        r.trigger_status_na as nat
    }
}

/// The order's base amount: the position-tied amount for a non-conditional order that names
/// none, else its own.
pub open spec fn order_base_amount(tx: L2CreateOrderTx, s: CreateOrderState, f: OrderTypeFlags) -> nat {
    let base = l2_create_order_tx_values(tx)[4];
    if !f.is_conditional_order && base == 0 {
        s.position_tied_base_amount@
    } else {
        base
    }
}

/// Whether the order goes ahead before its market-specific checks: it is the slot's
/// transaction, its client order id is unique, and its base size and price are acceptable
/// wherever they are checked (not for a conditional order without a base amount).
pub open spec fn order_passes_size_checks(
    tx: L2CreateOrderTx,
    s: CreateOrderState,
    f: OrderTypeFlags,
    is_enabled: bool,
) -> bool {
    let base = l2_create_order_tx_values(tx)[4];
    is_enabled && s.is_cloid_unique && !((!f.is_conditional_order || base != 0)
        && !s.is_base_size_and_price_valid)
}

/// Whether the order goes ahead: it passes the size checks, a reduce-only order on a
/// perpetual market does not point the wrong way, and its expiry is nil or after the block.
pub open spec fn order_goes_ahead(
    tx: L2CreateOrderTx,
    s: CreateOrderState,
    f: OrderTypeFlags,
    r: CreateOrderRules,
    is_enabled: bool,
) -> bool {
    let v = l2_create_order_tx_values(tx);
    let sized = order_passes_size_checks(tx, s, f, is_enabled);
    &&& sized
    &&& !(s.is_perps_market && v[9] == 1 && s.is_reduce_only_direction_invalid)
    &&& (v[11] == r.nil_order_expiry || s.block_timestamp@ < v[11])
}

/// The constraints of an order creation, over the field values of the record. Always: the
/// base amount, prices and expiry fit their widths, reduce-only is a bit, the time in force
/// is IOC, GTT or post-only, the order type may be created by this transaction, and a market
/// order is IOC with nil expiry and trigger price. When the order is the slot's transaction:
/// the treasury only trades spot; the order names the state's market, owner and API key; a
/// spot market's assets are in the base and quote slots and a perpetual market settles in
/// USDC; outside insurance funds, an isolated-only perpetual market takes no pool, no
/// explicitly cross position, and (without an isolated default) only isolated positions;
/// a limit order has no trigger price and an expiry exactly when it is not IOC; stop-loss and
/// take-profit orders trade perpetuals with a trigger price and an expiry (IOC for the market
/// kinds); a TWAP order is GTT with an expiry and no trigger price; the price is not zero; the
/// market is active and not full. Once the order passes its size checks, on a spot market it
/// is not conditional, not reduce-only, names a base amount and no trigger price, is not a
/// pool's and, for an insurance fund, trades margin assets; on a perpetual market the index
/// and mark prices are set. An order that goes ahead and waits in the pending slot takes the
/// next order index and its client order index there.
pub open spec fn create_order_constraints_hold(
    tx: L2CreateOrderTx,
    s: CreateOrderState,
    f: OrderTypeFlags,
    r: CreateOrderRules,
    is_enabled: bool,
) -> bool {
    let v = l2_create_order_tx_values(tx);
    let (account, api_key, market, cloid) = (v[0], v[1], v[2], v[3]);
    let (base, price, reduce_only, trigger, expiry) = (v[4], v[5], v[9], v[10], v[11]);
    let tif = v[8];
    let is_ioc = tif == r.ioc;
    let nil_trigger = trigger == r.nil_trigger_price;
    let nil_expiry = expiry == r.nil_order_expiry;
    let perps = is_enabled && s.is_perps_market;
    let margin_gated = perps && s.taker_account_type@ != r.insurance_fund_account_type;
    let is_taker_pool = s.taker_account_type@ == r.public_pool_account_type;
    let explicitly_cross = s.taker_margin_set_flag@ == r.margin_set && s.taker_margin_mode@
        == r.cross_margin;
    let sized = order_passes_size_checks(tx, s, f, is_enabled);
    let spot_checked = sized && !s.is_perps_market;
    let perps_checked = sized && s.is_perps_market;
    let trigger_status = order_trigger_status(f, r);
    &&& base < pow2(r.order_base_amount_bits as nat)
    &&& trigger < pow2(r.order_price_bits as nat)
    &&& price < pow2(r.order_price_bits as nat)
    &&& expiry < pow2(r.timestamp_bits as nat)
    &&& reduce_only <= 1
    &&& tif == r.ioc || tif == r.gtt || tif == r.post_only
    &&& f.is_valid_l2_create_order
    &&& f.is_market_order ==> is_ioc && nil_expiry && nil_trigger
    &&& is_enabled && account == r.treasury_account_index ==> !s.is_perps_market
    &&& is_enabled ==> {
        &&& market == s.market_index@
        &&& account == s.owner_account_index@
        &&& api_key == s.api_key_index@
        &&& price != 0
        &&& s.market_status@ == r.market_status_active
        &&& s.ask_nonce@ != s.bid_nonce@
    }
    &&& is_enabled && !s.is_perps_market ==> {
        &&& s.market_base_asset_id@ == s.base_slot_asset_index@
        &&& s.market_quote_asset_id@ == s.quote_slot_asset_index@
    }
    &&& perps ==> s.tx_slot_asset_index@ == r.usdc_asset_index
    &&& margin_gated ==> {
        &&& !(is_taker_pool && s.is_isolated_only_market)
        &&& !(s.is_isolated_only_market && explicitly_cross)
        &&& !(s.is_isolated_only_market && !s.default_margin_mode_isolated
            && s.taker_margin_mode@ != r.isolated_margin)
    }
    &&& is_enabled && f.is_limit_order ==> {
        &&& nil_trigger
        &&& is_ioc ==> nil_expiry
        &&& !is_ioc ==> !nil_expiry
    }
    &&& is_enabled && (f.is_stop_loss_order || f.is_take_profit_order) ==> {
        &&& s.is_perps_market && is_ioc && !nil_trigger && !nil_expiry
    }
    &&& is_enabled && (f.is_stop_loss_limit_order || f.is_take_profit_limit_order) ==> {
        &&& s.is_perps_market && !nil_trigger && !nil_expiry
    }
    &&& is_enabled && f.is_twap_order ==> {
        &&& tif == r.gtt && nil_trigger && !nil_expiry
    }
    &&& spot_checked ==> {
        &&& trigger_status == r.trigger_status_na || trigger_status == r.trigger_status_twap
        &&& reduce_only == 0
        &&& base != 0
        &&& trigger == 0
        &&& !is_taker_pool
        &&& s.taker_account_type@ == r.insurance_fund_account_type ==> s.base_asset_margin_mode@
            == 1 && s.quote_asset_margin_mode@ == 1
    }
    &&& perps_checked ==> s.index_price@ != 0 && s.mark_price@ != 0
    &&& order_goes_ahead(tx, s, f, r, is_enabled) && (f.is_twap_order || f.is_conditional_order)
        ==> {
        &&& s.pending_order_index_0@ == s.next_order_index@
        &&& s.pending_order_index_1@ == cloid
    }
}

fn field_i64(n: i64) -> (r: u64)
    ensures
        r == i64_field(n),
        r < p(),
{
    GoldilocksField::from_canonical_i64(n).to_canonical_u64()
}

impl L2CreateOrderTx {
    /// Checks the record as the order-creation transaction of a block slot: `None` when the
    /// constraints of [`create_order_constraints_hold`] cannot be met; otherwise whether the
    /// order goes ahead ([`order_goes_ahead`]), its trigger status, its base amount and whether
    /// it waits in the pending-order slot.
    pub fn verify(
        &self,
        is_enabled: bool,
        s: &CreateOrderState,
        f: &OrderTypeFlags,
        r: &CreateOrderRules,
    ) -> (res: Option<CreateOrderOutcome>)
        requires
            create_order_rules_valid(*r),
        ensures
            res is Some <==> create_order_constraints_hold(*self, *s, *f, *r, is_enabled),
            res matches Some(o) ==> {
                &&& o.success == order_goes_ahead(*self, *s, *f, *r, is_enabled)
                &&& o.trigger_status == order_trigger_status(*f, *r)
                &&& o.calculated_base_amount@ == order_base_amount(*self, *s, *f)
                &&& o.is_pending_order == (f.is_twap_order || f.is_conditional_order)
            },
    {
        let account = field_i64(self.account_index);
        let market = self.market_index as u64;
        let cloid = field_i64(self.client_order_index);
        let base = field_i64(self.base_amount);
        let price = field_i64(self.price);
        let tif = self.time_in_force as u64;
        let reduce_only = self.reduce_only as u64;
        let trigger = self.trigger_price as u64;
        let expiry = field_i64(self.order_expiry);

        if !(fits_bits(base, r.order_base_amount_bits) && fits_bits(trigger, r.order_price_bits)
            && fits_bits(price, r.order_price_bits) && fits_bits(expiry, r.timestamp_bits)
            && reduce_only <= 1) {
            return None;
        }
        let is_ioc = tif == r.ioc;
        let nil_trigger = trigger == r.nil_trigger_price;
        let nil_expiry = expiry == r.nil_order_expiry;
        if !(is_ioc || tif == r.gtt || tif == r.post_only) || !f.is_valid_l2_create_order {
            return None;
        }
        if f.is_market_order && !(is_ioc && nil_expiry && nil_trigger) {
            return None;
        }
        if is_enabled && account == r.treasury_account_index && s.is_perps_market {
            return None;
        }
        if is_enabled && !(market == s.market_index.to_canonical_u64() && account
            == s.owner_account_index.to_canonical_u64() && (self.api_key_index as u64)
            == s.api_key_index.to_canonical_u64() && price != 0
            && s.market_status.to_canonical_u64() == r.market_status_active && !s.ask_nonce.equals(
            &s.bid_nonce,
        )) {
            return None;
        }
        if is_enabled && !s.is_perps_market && !(s.market_base_asset_id.equals(
            &s.base_slot_asset_index,
        ) && s.market_quote_asset_id.equals(&s.quote_slot_asset_index)) {
            return None;
        }
        let perps = is_enabled && s.is_perps_market;
        if perps && s.tx_slot_asset_index.to_canonical_u64() != r.usdc_asset_index {
            return None;
        }
        let taker_type = s.taker_account_type.to_canonical_u64();
        let taker_mode = s.taker_margin_mode.to_canonical_u64();
        let is_taker_pool = taker_type == r.public_pool_account_type;
        if perps && taker_type != r.insurance_fund_account_type {
            let explicitly_cross = s.taker_margin_set_flag.to_canonical_u64() == r.margin_set
                && taker_mode == r.cross_margin;
            if (is_taker_pool && s.is_isolated_only_market) || (s.is_isolated_only_market
                && explicitly_cross) || (s.is_isolated_only_market
                && !s.default_margin_mode_isolated && taker_mode != r.isolated_margin) {
                return None;
            }
        }
        if is_enabled && f.is_limit_order && !(nil_trigger && (!is_ioc || nil_expiry) && (is_ioc
            || !nil_expiry)) {
            return None;
        }
        if is_enabled && (f.is_stop_loss_order || f.is_take_profit_order) && !(s.is_perps_market
            && is_ioc && !nil_trigger && !nil_expiry) {
            return None;
        }
        if is_enabled && (f.is_stop_loss_limit_order || f.is_take_profit_limit_order) && !(
        s.is_perps_market && !nil_trigger && !nil_expiry) {
            return None;
        }
        if is_enabled && f.is_twap_order && !(tif == r.gtt && nil_trigger && !nil_expiry) {
            return None;
        }

        let trigger_status = if f.is_conditional_order {
            r.trigger_status_mark_price
        } else if f.is_twap_order {
            r.trigger_status_twap
        } else {
            r.trigger_status_na
        };
        let calculated_base_amount = if !f.is_conditional_order && base == 0 {
            s.position_tied_base_amount
        } else {
            GoldilocksField::from_canonical_u64(base)
        };
        let base_checked = !f.is_conditional_order || base != 0;
        let sized = is_enabled && s.is_cloid_unique && !(base_checked
            && !s.is_base_size_and_price_valid);

        if sized && !s.is_perps_market {
            let insurance = taker_type == r.insurance_fund_account_type;
            if !((trigger_status == r.trigger_status_na || trigger_status == r.trigger_status_twap)
                && reduce_only == 0 && base != 0 && trigger == 0 && !is_taker_pool && (!insurance
                || (s.base_asset_margin_mode.to_canonical_u64() == 1
                && s.quote_asset_margin_mode.to_canonical_u64() == 1))) {
                return None;
            }
        }
        if sized && s.is_perps_market && (s.index_price.is_zero() || s.mark_price.is_zero()) {
            return None;
        }
        let direction_ok = !(s.is_perps_market && reduce_only == 1
            && s.is_reduce_only_direction_invalid);
        let expiry_ok = nil_expiry || s.block_timestamp.to_canonical_u64() < expiry;
        let success = sized && direction_ok && expiry_ok;
        let is_pending_order = f.is_twap_order || f.is_conditional_order;
        if success && is_pending_order && !(s.pending_order_index_0.equals(&s.next_order_index)
            && s.pending_order_index_1.to_canonical_u64() == cloid) {
            return None;
        }
        Some(CreateOrderOutcome { success, trigger_status, calculated_base_amount, is_pending_order })
    }
}

} // verus!
