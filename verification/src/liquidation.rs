use vstd::prelude::*;
use vstd::arithmetic::mul::*;
use vstd::arithmetic::div_mod::*;

verus! {

/// `2^64`, the capacity of four 16-bit limbs.
pub open spec fn pow2_64() -> nat {
    18446744073709551616nat
}

/// `2^96`, the capacity of three 32-bit limbs.
pub open spec fn pow2_96() -> nat {
    79228162514264337593543950336nat
}

pub open spec fn abs_int(x: int) -> nat {
    if x < 0 {
        (-x) as nat
    } else {
        x as nat
    }
}

pub open spec fn sign_int(x: int) -> int {
    if x < 0 {
        -1
    } else if x == 0 {
        0
    } else {
        1
    }
}

pub fn abs_i128(x: i128) -> (r: u128)
    ensures
        r == abs_int(x as int),
{
    if x < 0 {
        (-(x + 1)) as u128 + 1
    } else {
        x as u128
    }
}

proof fn lemma_abs_mul(x: int, y: int)
    ensures
        abs_int(x * y) == abs_int(x) * abs_int(y),
        x * y < 0 <==> (x < 0 && y > 0) || (x > 0 && y < 0),
{
    if x >= 0 && y >= 0 {
        assert(x * y >= 0) by (nonlinear_arith)
            requires
                x >= 0,
                y >= 0,
        ;
    } else if x < 0 && y >= 0 {
        assert(x * y <= 0 && -(x * y) == (-x) * y && (y > 0 ==> x * y < 0)) by (nonlinear_arith)
            requires
                x < 0,
                y >= 0,
        ;
    } else if x >= 0 && y < 0 {
        assert(x * y <= 0 && -(x * y) == x * (-y) && (x > 0 ==> x * y < 0)) by (nonlinear_arith)
            requires
                x >= 0,
                y < 0,
        ;
    } else {
        assert(x * y > 0 && x * y == (-x) * (-y)) by (nonlinear_arith)
            requires
                x < 0,
                y < 0,
        ;
    }
}

/// The position side of an account in one market: the signed size and the funding-rate
/// prefix sum at its last settlement.
#[derive(Clone, Copy, Debug)]
pub struct AccountPosition {
    pub position: i128,
    pub last_funding_rate_prefix_sum: i128,
}

/// The market figures the margin formulas read.
#[derive(Clone, Copy, Debug)]
pub struct MarketDetails {
    pub quote_multiplier: u32,
    pub funding_rate_prefix_sum: i128,
    pub mark_price: u32,
    pub maintenance_margin_fraction: u16,
}

/// An account's aggregated risk figures.
#[derive(Clone, Copy, Debug)]
pub struct RiskParameters {
    pub total_account_value: i128,
    pub initial_margin_requirement: u128,
    pub maintenance_margin_requirement: u128,
    pub total_account_liquidation_threshold: i128,
    pub usdc_collateral_with_funding: i128,
    pub total_portfolio_value: i128,
    /// Whether the account's total value covers its initial margin requirement.
    pub is_healthy: bool,
}

/// The extension multipliers of a market.
#[derive(Clone, Copy, Debug)]
pub struct MarketExtensions {
    pub size_extension_multiplier: u64,
    pub quote_extension_multiplier: u64,
}

/// The pricing figures of an asset used as margin.
#[derive(Clone, Copy, Debug)]
pub struct MarginedAsset {
    pub index_price: u32,
    pub index_price_divider: u64,
    pub liquidation_factor: u32,
    pub loan_to_value: u16,
}

/// When the funding owed on a position fits the 96-bit result: the position times the
/// quote multiplier fits 96 bits, the funding-rate difference 64 bits, and their product 96 bits.
pub open spec fn funding_delta_fits(position: AccountPosition, market_details: MarketDetails) -> bool {
    let m = abs_int(position.position as int) * market_details.quote_multiplier;
    let d = position.last_funding_rate_prefix_sum - market_details.funding_rate_prefix_sum;
    &&& m < pow2_96()
    &&& abs_int(d) < pow2_64()
    &&& m * abs_int(d) < pow2_96()
}

/// The funding owed on a position since its last settlement:
/// `position * quote_multiplier * (last_prefix_sum - market_prefix_sum)`;
/// `None` when the constraints have no solution because a figure overflows its limbs.
pub fn get_funding_delta_for_position_and_market(
    position: &AccountPosition,
    market_details: &MarketDetails,
) -> (r: Option<i128>)
    ensures
        r is Some <==> funding_delta_fits(*position, *market_details),
        r matches Some(v) ==> v == position.position * market_details.quote_multiplier * (
        position.last_funding_rate_prefix_sum - market_details.funding_rate_prefix_sum),
{
    let qm = market_details.quote_multiplier as u128;
    let pos_abs = abs_i128(position.position);
    let ghost d = position.last_funding_rate_prefix_sum - market_details.funding_rate_prefix_sum;
    let fm = match pos_abs.checked_mul(qm) {
        Some(v) => v,
        None => {
            return None;
        },
    };
    if fm >= 79228162514264337593543950336u128 {
        return None;
    }
    let fr = match position.last_funding_rate_prefix_sum.checked_sub(market_details.funding_rate_prefix_sum) {
        Some(v) => v,
        None => {
            return None;
        },
    };
    let fr_abs = abs_i128(fr);
    if fr_abs >= 18446744073709551616u128 {
        return None;
    }
    let prod = match fm.checked_mul(fr_abs) {
        Some(v) => v,
        None => {
            return None;
        },
    };
    if prod >= 79228162514264337593543950336u128 {
        return None;
    }
    let negative = (position.position < 0 && fr > 0) || (position.position > 0 && fr < 0);
    proof {
        let p = position.position as int;
        let q = market_details.quote_multiplier as int;
        lemma_abs_mul(p, q);
        lemma_abs_mul(p * q, d);
        assert(abs_int(q) == q);
        if q == 0 {
            lemma_mul_basics(p);
            assert(p * q * d == 0) by {
                lemma_mul_basics(d);
            }
        } else {
            lemma_mul_strictly_positive(q, 1);
            if p < 0 {
                lemma_mul_strict_inequality(p, 0, q);
            } else if p > 0 {
                lemma_mul_strict_inequality(0, p, q);
            } else {
                lemma_mul_basics(q);
            }
        }
    }
    let v: i128 = if negative { -(prod as i128) } else { prod as i128 };
    Some(v)
}

/// The USDC an account can still draw: its total value above the initial margin requirement
/// when healthy (else nothing), capped by its USDC collateral, and nothing when that
/// collateral is negative.
pub open spec fn available_usdc_collateral(risk_info: RiskParameters) -> nat {
    let tav = abs_int(risk_info.total_account_value as int);
    let available = if risk_info.is_healthy && risk_info.usdc_collateral_with_funding >= 0 {
        (tav - risk_info.initial_margin_requirement) as nat
    } else {
        0
    };
    let collateral = abs_int(risk_info.usdc_collateral_with_funding as int);
    if available <= collateral {
        available
    } else {
        collateral
    }
}

/// See [`available_usdc_collateral`]; `None` when a healthy account's value is below its
/// initial margin requirement, which the constraints rule out.
pub fn get_available_usdc_collateral(risk_info: &RiskParameters) -> (r: Option<u128>)
    ensures
        r is None <==> risk_info.is_healthy && abs_int(risk_info.total_account_value as int)
            < risk_info.initial_margin_requirement,
        r matches Some(v) ==> v == available_usdc_collateral(*risk_info),
{
    let tav = abs_i128(risk_info.total_account_value);
    let imr = risk_info.initial_margin_requirement;
    if risk_info.is_healthy && tav < imr {
        return None;
    }
    let mut available: u128 = if risk_info.is_healthy { tav - imr } else { 0 };
    if risk_info.usdc_collateral_with_funding < 0 {
        available = 0;
    }
    let collateral = abs_i128(risk_info.usdc_collateral_with_funding);
    if available <= collateral {
        Some(available)
    } else {
        Some(collateral)
    }
}

/// `x / m` rounded up, and `x` itself for `m == 0`.
pub open spec fn ceil_div(x: nat, m: nat) -> nat {
    if m == 0 {
        x
    } else {
        x / m + (if x % m == 0 { 0nat } else { 1nat })
    }
}

/// `x / m`, and zero for `m == 0`.
pub open spec fn floor_div(x: nat, m: nat) -> nat {
    if m == 0 {
        0
    } else {
        x / m
    }
}

fn ceil_div_u128(x: u128, m: u128) -> (r: u128)
    ensures
        r == ceil_div(x as nat, m as nat),
{
    if m == 0 {
        x
    } else {
        proof {
            lemma_fundamental_div_mod(x as int, m as int);
            lemma_div_pos_is_pos(x as int, m as int);
            lemma_mul_inequality(1, m as int, (x / m) as int);
            lemma_mul_is_commutative(m as int, (x / m) as int);
        }
        x / m + (if x % m == 0 { 0 } else { 1 })
    }
}

fn floor_div_u128(x: u128, m: u128) -> (r: u128)
    ensures
        r == floor_div(x as nat, m as nat),
{
    if m == 0 {
        0
    } else {
        x / m
    }
}

/// The sign of `x * y`, as a small integer.
fn sign_product(x: i128, y: i128) -> (s: i8)
    ensures
        s as int == sign_int(x as int) * sign_int(y as int),
        -1 <= s <= 1,
{
    proof {
        let sx = sign_int(x as int);
        let sy = sign_int(y as int);
        assert(sx * sy == (if sx == 0 || sy == 0 {
            0
        } else if sx == sy {
            1
        } else {
            -1
        })) by (nonlinear_arith)
            requires
                sx == -1 || sx == 0 || sx == 1,
                sy == -1 || sy == 0 || sy == 1,
        ;
    }
    if x == 0 || y == 0 {
        0
    } else if (x < 0) == (y < 0) {
        1
    } else {
        -1
    }
}

/// A magnitude times a sign.
proof fn lemma_signed_term(m: int, s: int)
    requires
        -1 <= s <= 1,
    ensures
        s == 0 ==> m * s == 0,
        s == 1 ==> m * s == m,
        s == -1 ==> m * s == -m,
{
    if s == -1 {
        assert(m * -1 == -m) by (nonlinear_arith);
    }
}

/// The price at which a position's account would reach its maintenance margin, as the
/// circuit computes it from the mark price, the margin requirement and the liquidation
/// threshold: `ceil` (long) or `floor` (short) of
/// `(mark * mmr * tick - mark * mmf * tlt * sign(position)) / (mmr * tick)`, capped at
/// `max_order_price`, and 1 when that numerator is not positive. `None` when a figure
/// exceeds 128 bits.
pub open spec fn position_zero_price(
    position: AccountPosition,
    market_details: MarketDetails,
    risk_info: RiskParameters,
    margin_tick: nat,
    max_order_price: nat,
) -> Option<nat> {
    let mrt = (risk_info.maintenance_margin_requirement * margin_tick) as nat;
    let a = (market_details.mark_price * mrt) as nat;
    let b_abs = (market_details.mark_price * market_details.maintenance_margin_fraction * abs_int(
        risk_info.total_account_liquidation_threshold as int,
    )) as nat;
    let b = b_abs * (sign_int(risk_info.total_account_liquidation_threshold as int) * sign_int(
        position.position as int,
    ));
    let d = a - b;
    if mrt > u128::MAX || a > u128::MAX || b_abs > u128::MAX || abs_int(d) > u128::MAX {
        None
    } else {
        let q = if position.position > 0 {
            ceil_div(abs_int(d), mrt)
        } else {
            floor_div(abs_int(d), mrt)
        };
        Some(
            if d > 0 {
                if q > max_order_price {
                    max_order_price
                } else {
                    q
                }
            } else {
                1
            },
        )
    }
}

/// See [`position_zero_price`]; `margin_tick` and `max_order_price` are the exchange's
/// margin-fraction tick and largest order price.
pub fn get_position_zero_price(
    position: &AccountPosition,
    market_details: &MarketDetails,
    risk_info: &RiskParameters,
    margin_tick: u32,
    max_order_price: u64,
) -> (r: Option<u128>)
    ensures
        match position_zero_price(
            *position,
            *market_details,
            *risk_info,
            margin_tick as nat,
            max_order_price as nat,
        ) {
            Some(v) => r == Some(v as u128),
            None => r is None,
        },
{
    let ghost spec_r = position_zero_price(
        *position,
        *market_details,
        *risk_info,
        margin_tick as nat,
        max_order_price as nat,
    );
    let mrt = match risk_info.maintenance_margin_requirement.checked_mul(margin_tick as u128) {
        Some(v) => v,
        None => {
            return None;
        },
    };
    let mark = market_details.mark_price as u128;
    let a = match mark.checked_mul(mrt) {
        Some(v) => v,
        None => {
            proof {
                lemma_mul_is_commutative(mark as int, mrt as int);
            }
            return None;
        },
    };
    proof {
        lemma_mul_upper_bound(
            mark as int,
            u32::MAX as int,
            market_details.maintenance_margin_fraction as int,
            u16::MAX as int,
        );
    }
    let mpmf: u128 = mark * (market_details.maintenance_margin_fraction as u128);
    let talt_abs = abs_i128(risk_info.total_account_liquidation_threshold);
    let b_abs = match mpmf.checked_mul(talt_abs) {
        Some(v) => v,
        None => {
            return None;
        },
    };
    let talt = risk_info.total_account_liquidation_threshold;
    let pos = position.position;
    let s = sign_product(talt, pos);
    let ghost b = b_abs * (sign_int(talt as int) * sign_int(pos as int));
    let ghost d = a - b;
    proof {
        lemma_signed_term(b_abs as int, s as int);
    }
    let (d_neg, d_abs): (bool, u128) = if s == 0 {
        (false, a)
    } else if s > 0 {
        if a >= b_abs {
            (false, a - b_abs)
        } else {
            (true, b_abs - a)
        }
    } else {
        match a.checked_add(b_abs) {
            Some(v) => (false, v),
            None => {
                return None;
            },
        }
    };
    proof {
        assert(d_abs == abs_int(d));
        assert(!d_neg && d_abs > 0 <==> d > 0);
    }
    let q = if pos > 0 { ceil_div_u128(d_abs, mrt) } else { floor_div_u128(d_abs, mrt) };
    let result: u128 = if !d_neg && d_abs > 0 {
        if q > max_order_price as u128 {
            max_order_price as u128
        } else {
            q
        }
    } else {
        1
    };
    Some(result)
}

/// The zero price of a margin asset:
/// `ceil(size_ext * index_price * liquidation_factor / (quote_ext * index_price_divider * asset_margin_tick))`,
/// capped at `max_order_price`, read from its low 32-bit limb, and raised to 1 when that is 0.
/// `None` when a product exceeds its limbs (96 bits for the first, 128 for the others).
pub open spec fn asset_zero_price(
    market: MarketExtensions,
    asset: MarginedAsset,
    asset_margin_tick: nat,
    max_order_price: nat,
) -> Option<nat> {
    let multiplier = (market.size_extension_multiplier * asset.index_price) as nat;
    let divider = (market.quote_extension_multiplier * asset.index_price_divider) as nat;
    let numerator = (multiplier * asset.liquidation_factor) as nat;
    let denominator = (divider * asset_margin_tick) as nat;
    if multiplier >= pow2_96() || numerator > u128::MAX || denominator > u128::MAX {
        None
    } else {
        let zero_price = ceil_div(numerator, denominator);
        let capped = if zero_price > max_order_price {
            max_order_price
        } else {
            zero_price
        };
        let low = capped % 4294967296;
        Some(if low == 0 { 1 } else { low })
    }
}

/// See [`asset_zero_price`].
pub fn get_asset_zero_price(
    order_book: &MarketExtensions,
    margined_asset: &MarginedAsset,
    asset_margin_tick: u64,
    max_order_price: u64,
) -> (r: Option<u64>)
    ensures
        match asset_zero_price(
            *order_book,
            *margined_asset,
            asset_margin_tick as nat,
            max_order_price as nat,
        ) {
            Some(v) => r == Some(v as u64),
            None => r is None,
        },
{
    let sem = order_book.size_extension_multiplier as u128;
    let qem = order_book.quote_extension_multiplier as u128;
    proof {
        lemma_mul_upper_bound(
            sem as int,
            u64::MAX as int,
            margined_asset.index_price as int,
            u32::MAX as int,
        );
    }
    let multiplier: u128 = sem * (margined_asset.index_price as u128);
    if multiplier >= 79228162514264337593543950336u128 {
        return None;
    }
    proof {
        lemma_mul_upper_bound(qem as int, u64::MAX as int, margined_asset.index_price_divider as int, u64::MAX as int);
        assert(u64::MAX as int * u64::MAX as int <= u128::MAX) by (nonlinear_arith);
    }
    let divider: u128 = qem * (margined_asset.index_price_divider as u128);
    let numerator = match multiplier.checked_mul(margined_asset.liquidation_factor as u128) {
        Some(v) => v,
        None => {
            return None;
        },
    };
    let denominator = match divider.checked_mul(asset_margin_tick as u128) {
        Some(v) => v,
        None => {
            return None;
        },
    };
    let zero_price = ceil_div_u128(numerator, denominator);
    let capped: u128 = if zero_price > max_order_price as u128 {
        max_order_price as u128
    } else {
        zero_price
    };
    let low: u64 = (capped % 4294967296u128) as u64;
    if low == 0 {
        Some(1)
    } else {
        Some(low)
    }
}

/// `2^128`, the capacity of four 32-bit limbs.
pub open spec fn pow2_128() -> nat {
    340282366920938463463374607431768211456nat
}

pub open spec fn min_nat(a: nat, b: nat) -> nat {
    if a <= b {
        a
    } else {
        b
    }
}

/// `a - b`, or zero when `b` exceeds `a`.
pub open spec fn saturating_sub(a: nat, b: nat) -> nat {
    if a >= b {
        (a - b) as nat
    } else {
        0
    }
}

/// How much of an asset an account can draw against its margin. For USDC: the value above
/// the initial margin requirement of a healthy account (nothing for an unhealthy one or an
/// asset without index price), capped by its USDC collateral and nothing when that is
/// negative. For another asset: that USDC amount converted at
/// `index_price_divider * asset_margin_tick / (index_price * loan_to_value)` (nothing for a zero
/// divisor) and read from its low 96 bits, capped by the margin balance and nothing when that
/// is negative. `None` when a healthy account's value is below its initial margin requirement
/// (which the constraints rule out), when the conversion multiplier reaches `2^96` or the
/// converted product `2^128`.
pub open spec fn available_margin_balance(
    asset_index: nat,
    risk_info: RiskParameters,
    margin_asset: MarginedAsset,
    margin_balance: int,
    usdc_asset_index: nat,
    asset_margin_tick: nat,
) -> Option<nat> {
    let tav = abs_int(risk_info.total_account_value as int);
    let imr = risk_info.initial_margin_requirement as nat;
    if risk_info.is_healthy && tav < imr {
        None
    } else {
        let base: nat = if risk_info.is_healthy { (tav - imr) as nat } else { 0 };
        let available: nat = if margin_asset.index_price != 0 { base } else { 0 };
        let multiplier = (margin_asset.index_price_divider * asset_margin_tick) as nat;
        let divider = (margin_asset.index_price * margin_asset.loan_to_value) as nat;
        let product = available * multiplier;
        if multiplier >= pow2_96() || product >= pow2_128() {
            None
        } else {
            let native = floor_div(product, divider) % pow2_96();
            let native_if_positive: nat = if margin_balance >= 0 { native } else { 0 };
            let result_non_usdc = min_nat(native_if_positive, abs_int(margin_balance));
            let collateral = risk_info.usdc_collateral_with_funding as int;
            let usdc_if_positive: nat = if collateral >= 0 { available } else { 0 };
            let result_usdc = min_nat(usdc_if_positive, abs_int(collateral));
            Some(if asset_index == usdc_asset_index { result_usdc } else { result_non_usdc })
        }
    }
}

/// See [`available_margin_balance`]; `usdc_asset_index` and `asset_margin_tick` are the
/// exchange's USDC asset index and asset margin tick.
pub fn get_available_margin_balance(
    asset_index: u64,
    risk_info: &RiskParameters,
    margin_asset: &MarginedAsset,
    margin_balance: i128,
    usdc_asset_index: u64,
    asset_margin_tick: u64,
) -> (r: Option<u128>)
    ensures
        match available_margin_balance(
            asset_index as nat,
            *risk_info,
            *margin_asset,
            margin_balance as int,
            usdc_asset_index as nat,
            asset_margin_tick as nat,
        ) {
            Some(v) => r == Some(v as u128),
            None => r is None,
        },
{
    let tav = abs_i128(risk_info.total_account_value);
    let imr = risk_info.initial_margin_requirement;
    if risk_info.is_healthy && tav < imr {
        return None;
    }
    let base: u128 = if risk_info.is_healthy { tav - imr } else { 0 };
    let available: u128 = if margin_asset.index_price != 0 { base } else { 0 };
    proof {
        lemma_mul_upper_bound(
            margin_asset.index_price_divider as int,
            u64::MAX as int,
            asset_margin_tick as int,
            u64::MAX as int,
        );
        assert(u64::MAX as int * u64::MAX as int <= u128::MAX) by (nonlinear_arith);
        lemma_mul_upper_bound(
            margin_asset.index_price as int,
            u32::MAX as int,
            margin_asset.loan_to_value as int,
            u16::MAX as int,
        );
    }
    let multiplier: u128 = (margin_asset.index_price_divider as u128) * (asset_margin_tick as u128);
    let divider: u128 = (margin_asset.index_price as u128) * (margin_asset.loan_to_value as u128);
    if multiplier >= 79228162514264337593543950336u128 {
        return None;
    }
    let product = match available.checked_mul(multiplier) {
        Some(v) => v,
        None => {
            return None;
        },
    };
    let native: u128 = floor_div_u128(product, divider) % 79228162514264337593543950336u128;
    let native_if_positive: u128 = if margin_balance >= 0 { native } else { 0 };
    let balance_abs = abs_i128(margin_balance);
    let result_non_usdc = if native_if_positive <= balance_abs { native_if_positive } else { balance_abs };
    let collateral = risk_info.usdc_collateral_with_funding;
    let usdc_if_positive: u128 = if collateral >= 0 { available } else { 0 };
    let collateral_abs = abs_i128(collateral);
    let result_usdc = if usdc_if_positive <= collateral_abs { usdc_if_positive } else { collateral_abs };
    if asset_index == usdc_asset_index {
        Some(result_usdc)
    } else {
        Some(result_non_usdc)
    }
}

/// A flag fixed when the circuit is built, or carried by a wire (here, the wire's value).
#[derive(Clone, Copy, Debug)]
pub enum BoolOrTarget {
    False,
    True,
    Target(bool),
}

/// The balance of an asset an account can use in a product. A simple account uses the
/// asset's own available balance for spot and its available margin balance for perps. A
/// unified account using the asset as margin takes the available margin balance plus (for
/// spot) the asset balance, less the locked balance in excess of the (perps) balance, unless
/// order margin is skipped; a unified account not using it as margin takes the available
/// balance. `None` when the available margin balance is undefined or the unified sum reaches
/// `2^96`.
pub open spec fn available_asset_balance(
    is_product_spot: bool,
    asset_index: nat,
    is_account_unified: bool,
    available_balance: nat,
    asset_balance: nat,
    locked_balance: nat,
    is_asset_used_as_margin: bool,
    risk_info: RiskParameters,
    margin_asset: MarginedAsset,
    margin_balance: int,
    skip_order_margin: BoolOrTarget,
    usdc_asset_index: nat,
    asset_margin_tick: nat,
) -> Option<nat> {
    match available_margin_balance(
        asset_index,
        risk_info,
        margin_asset,
        margin_balance,
        usdc_asset_index,
        asset_margin_tick,
    ) {
        None => None,
        Some(margin) => {
            let simple = if is_product_spot { available_balance } else { margin };
            let unified_margin = margin + (if is_product_spot { asset_balance } else { 0 });
            if unified_margin >= pow2_96() {
                None
            } else {
                let excess = saturating_sub(
                    locked_balance,
                    if is_product_spot { 0 } else { asset_balance },
                );
                let reduced = saturating_sub(unified_margin, excess);
                let with_orders = match skip_order_margin {
                    BoolOrTarget::True => unified_margin,
                    BoolOrTarget::False => reduced,
                    BoolOrTarget::Target(t) => if t { unified_margin } else { reduced },
                };
                let unified = if is_asset_used_as_margin { with_orders } else { available_balance };
                Some(if is_account_unified { unified } else { simple })
            }
        },
    }
}

/// See [`available_asset_balance`]; `asset_available_balance` is the asset's own available
/// balance, `asset_balance` and `locked_balance` its balance and locked balance.
pub fn get_available_asset_balance(
    is_product_spot: bool,
    asset_index: u64,
    is_account_unified: bool,
    asset_available_balance: u128,
    asset_balance: u128,
    locked_balance: u128,
    is_asset_used_as_margin: bool,
    risk_info: &RiskParameters,
    margin_asset: &MarginedAsset,
    margin_balance: i128,
    skip_order_margin: BoolOrTarget,
    usdc_asset_index: u64,
    asset_margin_tick: u64,
) -> (r: Option<u128>)
    ensures
        match available_asset_balance(
            is_product_spot,
            asset_index as nat,
            is_account_unified,
            asset_available_balance as nat,
            asset_balance as nat,
            locked_balance as nat,
            is_asset_used_as_margin,
            *risk_info,
            *margin_asset,
            margin_balance as int,
            skip_order_margin,
            usdc_asset_index as nat,
            asset_margin_tick as nat,
        ) {
            Some(v) => r == Some(v as u128),
            None => r is None,
        },
{
    let margin = match get_available_margin_balance(
        asset_index,
        risk_info,
        margin_asset,
        margin_balance,
        usdc_asset_index,
        asset_margin_tick,
    ) {
        Some(v) => v,
        None => {
            return None;
        },
    };
    let simple = if is_product_spot { asset_available_balance } else { margin };
    let spot_balance: u128 = if is_product_spot { asset_balance } else { 0 };
    let unified_margin = match margin.checked_add(spot_balance) {
        Some(v) => v,
        None => {
            return None;
        },
    };
    if unified_margin >= 79228162514264337593543950336u128 {
        return None;
    }
    let perps_balance: u128 = if is_product_spot { 0 } else { asset_balance };
    let excess: u128 = if locked_balance >= perps_balance { locked_balance - perps_balance } else { 0 };
    let reduced: u128 = if unified_margin >= excess { unified_margin - excess } else { 0 };
    let with_orders = match skip_order_margin {
        BoolOrTarget::True => unified_margin,
        BoolOrTarget::False => reduced,
        BoolOrTarget::Target(t) => if t { unified_margin } else { reduced },
    };
    let unified = if is_asset_used_as_margin { with_orders } else { asset_available_balance };
    if is_account_unified {
        Some(unified)
    } else {
        Some(simple)
    }
}

/// The signed trade quote at which a position's account would reach its maintenance margin,
/// as the circuit computes it: with `notional = mark * quote_multiplier * trade_size` and
/// `mrt = mmr * tick`, the dividend `notional * mrt - notional * mmf * tlt * sign(position)`
/// over `mrt`, rounded up in magnitude when the dividend and the position are both positive
/// or both not, else rounded down (a zero `mrt` leaves the magnitude, or gives zero when
/// rounding down), carrying the dividend's sign. `None` when the notional reaches `2^64` or a
/// figure exceeds 128 bits.
pub open spec fn position_zero_quote(
    position: AccountPosition,
    market_details: MarketDetails,
    risk_info: RiskParameters,
    trade_size: nat,
    margin_tick: nat,
) -> Option<int> {
    let notional = (market_details.mark_price * market_details.quote_multiplier * trade_size) as nat;
    let mrt = (risk_info.maintenance_margin_requirement * margin_tick) as nat;
    let a = notional * mrt;
    let b_abs = (notional * market_details.maintenance_margin_fraction * abs_int(
        risk_info.total_account_liquidation_threshold as int,
    )) as nat;
    let d = a - b_abs * (sign_int(risk_info.total_account_liquidation_threshold as int) * sign_int(
        position.position as int,
    ));
    if notional >= pow2_64() || mrt > u128::MAX || a > u128::MAX || b_abs > u128::MAX || abs_int(d)
        > u128::MAX {
        None
    } else {
        let q = if (d > 0) == (position.position > 0) {
            ceil_div(abs_int(d), mrt)
        } else {
            floor_div(abs_int(d), mrt)
        };
        Some(if d < 0 { -q } else { q as int })
    }
}

/// See [`position_zero_quote`]; the result is its sign (-1, 0 or 1) and magnitude, and
/// `margin_tick` is the exchange's margin-fraction tick.
pub fn get_position_zero_quote(
    position: &AccountPosition,
    market_details: &MarketDetails,
    risk_info: &RiskParameters,
    trade_size: u64,
    margin_tick: u32,
) -> (r: Option<(i8, u128)>)
    ensures
        match position_zero_quote(
            *position,
            *market_details,
            *risk_info,
            trade_size as nat,
            margin_tick as nat,
        ) {
            Some(v) => r == Some((sign_int(v) as i8, abs_int(v) as u128)),
            None => r is None,
        },
{
    let ghost spec_r = position_zero_quote(
        *position,
        *market_details,
        *risk_info,
        trade_size as nat,
        margin_tick as nat,
    );
    proof {
        lemma_mul_upper_bound(
            market_details.mark_price as int,
            u32::MAX as int,
            market_details.quote_multiplier as int,
            u32::MAX as int,
        );
        assert(u32::MAX as int * u32::MAX as int <= u64::MAX) by (nonlinear_arith);
    }
    let mq: u64 = (market_details.mark_price as u64) * (market_details.quote_multiplier as u64);
    proof {
        lemma_mul_upper_bound(mq as int, u64::MAX as int, trade_size as int, u64::MAX as int);
        assert(u64::MAX as int * u64::MAX as int <= u128::MAX) by (nonlinear_arith);
    }
    let notional: u128 = (mq as u128) * (trade_size as u128);
    if notional >= 18446744073709551616u128 {
        return None;
    }
    let mrt = match risk_info.maintenance_margin_requirement.checked_mul(margin_tick as u128) {
        Some(v) => v,
        None => {
            return None;
        },
    };
    let a = match notional.checked_mul(mrt) {
        Some(v) => v,
        None => {
            return None;
        },
    };
    proof {
        lemma_mul_upper_bound(
            notional as int,
            u64::MAX as int,
            market_details.maintenance_margin_fraction as int,
            u16::MAX as int,
        );
        assert(u64::MAX as int * u16::MAX as int <= u128::MAX) by (nonlinear_arith);
    }
    let nmf: u128 = notional * (market_details.maintenance_margin_fraction as u128);
    let talt_abs = abs_i128(risk_info.total_account_liquidation_threshold);
    let b_abs = match nmf.checked_mul(talt_abs) {
        Some(v) => v,
        None => {
            return None;
        },
    };
    let talt = risk_info.total_account_liquidation_threshold;
    let pos = position.position;
    let s = sign_product(talt, pos);
    let ghost b = b_abs * (sign_int(talt as int) * sign_int(pos as int));
    let ghost d = a - b;
    proof {
        lemma_signed_term(b_abs as int, s as int);
    }
    let (d_neg, d_abs): (bool, u128) = if s == 0 {
        (false, a)
    } else if s > 0 {
        if a >= b_abs {
            (false, a - b_abs)
        } else {
            (true, b_abs - a)
        }
    } else {
        match a.checked_add(b_abs) {
            Some(v) => (false, v),
            None => {
                return None;
            },
        }
    };
    proof {
        assert(d_abs == abs_int(d));
        assert(d_neg <==> d < 0);
    }
    let d_positive = !d_neg && d_abs > 0;
    let q = if d_positive == (pos > 0) { ceil_div_u128(d_abs, mrt) } else { floor_div_u128(d_abs, mrt) };
    let sign: i8 = if q == 0 { 0 } else if d_neg { -1 } else { 1 };
    proof {
        assert(spec_r == Some(if d < 0 { -(q as int) } else { q as int }));
    }
    Some((sign, q))
}

} // verus!
