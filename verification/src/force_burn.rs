use vstd::prelude::*;
use vstd::arithmetic::power2::pow2;
use vstd::arithmetic::div_mod::{lemma_basic_div, lemma_div_non_zero};
use vstd::arithmetic::mul::lemma_mul_upper_bound;
use crate::field::{GoldilocksField, GOLDILOCKS_ORDER, p, to_field, i64_field};
use crate::limbs::{limbs_value, limb_capacity, digits_to_u64};
use crate::matching::fits_bits;
use crate::liquidation::{RiskParameters, abs_int, abs_i128, available_usdc_collateral};
use crate::pools::{
    div_or_zero, pool_share_value, biguint_mul, u128_digits, digits_of_u64, quotient_or_zero,
    digits_to_field, get_shares_usdc_value_for_public_pool, get_shares_asset_value_for_staking_pool,
    get_available_shares_to_burn_for_public_pool,
};
use crate::div_rem::{digits_plus_one, digits_are_zero};
use crate::trade_validity::cross_risk_readable;
use crate::transactions::{L2ForceBurnSharesTx, l2_force_burn_shares_tx_values};

verus! {

/// The codes and figures the forced-burn rules use: the nil account index, the USDC and LIT
/// asset indices, the bit width of a burn's USDC value, the USDC-to-collateral multiplier, the
/// fee tick, the USDC a staked LIT allows, the USDC-to-LIT conversion rate and the initial
/// share values of a public and of a staking pool.
#[derive(Clone, Copy, Debug)]
pub struct ForceBurnRules {
    pub nil_account_index: u64,
    pub usdc_asset_index: u64,
    pub lit_asset_index: u64,
    pub max_burn_usdc_bits: u32,
    pub usdc_to_collateral_multiplier: u64,
    pub fee_tick: u64,
    pub lit_to_mint_shares_multiplier: u64,
    pub usdc_to_lit_conversion_rate: u64,
    pub initial_pool_share_value: u64,
    pub initial_staking_share_value: u64,
}

/// What the forced-burn check reads of the transaction state: the pool account (the shares'
/// owner) with its master account, kind, total shares, operator fee and the risk figures of its
/// strategy and cross accounts; the API key; the depositor (the liquidity pool account); the
/// system configuration's liquidity and staking pool indices and the staking pool account; the
/// assets in the USDC and stake slots; whether the pool is being liquidated; the depositor's
/// shares in the pool and the principal it paid; and its stake in the staking pool with that
/// pool's shares, stake balance and extension multiplier.
#[derive(Clone, Debug)]
pub struct ForceBurnState {
    pub share_owner_account_index: GoldilocksField,
    pub share_owner_master_account_index: GoldilocksField,
    pub is_share_owner_insurance_fund: bool,
    pub api_key_index: GoldilocksField,
    pub liquidity_pool_account_index: GoldilocksField,
    pub config_liquidity_pool_index: GoldilocksField,
    pub config_staking_pool_index: GoldilocksField,
    pub staking_pool_account_index: GoldilocksField,
    pub usdc_slot_asset_index: GoldilocksField,
    pub stake_slot_asset_index: GoldilocksField,
    pub is_stake_asset_empty: bool,
    pub is_pool_in_liquidation: bool,
    pub pool_total_shares: GoldilocksField,
    pub pool_operator_fee: GoldilocksField,
    pub pool_strategy_risk: RiskParameters,
    pub pool_cross_risk: RiskParameters,
    pub owned_shares: GoldilocksField,
    pub principal_amount: GoldilocksField,
    pub staked_shares: GoldilocksField,
    pub staking_pool_total_shares: GoldilocksField,
    pub staking_pool_stake_balance: Vec<u32>,
    pub stake_extension_multiplier: Vec<u32>,
}

/// What a forced burn decides: the shares that go to the operator as its fee, the shares
/// burned, their USDC value, and the depositor's principal afterwards.
#[derive(Clone, Copy, Debug)]
pub struct ForceBurnOutcome {
    pub operator_fee_share: GoldilocksField,
    pub shares_to_burn: GoldilocksField,
    pub shares_to_burn_usdc_value: GoldilocksField,
    pub new_principal_amount: GoldilocksField,
}

/// The rules' codes are field constants and the burn width is below 64 bits.
pub open spec fn force_burn_rules_valid(r: ForceBurnRules) -> bool {
    &&& r.nil_account_index < p()
    &&& r.usdc_asset_index < p()
    &&& r.lit_asset_index < p()
    &&& r.max_burn_usdc_bits < 64
}

/// The USDC value of `shares` shares of the pool.
pub open spec fn burn_usdc_value(s: ForceBurnState, r: ForceBurnRules, shares: nat) -> nat {
    pool_share_value(
        s.pool_total_shares@,
        shares,
        abs_int(s.pool_cross_risk.total_portfolio_value as int),
        r.usdc_to_collateral_multiplier as nat,
        r.initial_pool_share_value as nat,
    )
}

/// The principal the depositor paid for `shares` of its shares: its principal pro rata.
pub open spec fn usdc_paid_for_shares(s: ForceBurnState, shares: nat) -> nat {
    div_or_zero(s.principal_amount@ * shares, s.owned_shares@)
}

/// The operator's fee, in shares, on a burn of `shares` shares: nothing without a profit;
/// otherwise the profit times the operator fee times the pool's shares in collateral units,
/// over one fee tick of the pool's total account value, read into the field.
pub open spec fn operator_fee_share(s: ForceBurnState, r: ForceBurnRules, shares: nat) -> nat {
    let value = burn_usdc_value(s, r, shares);
    let paid = usdc_paid_for_shares(s, shares);
    if paid < value {
        to_field(
            div_or_zero(
                (value - paid) as nat * s.pool_operator_fee@ * (s.pool_total_shares@
                    * (r.usdc_to_collateral_multiplier as nat)),
                (r.fee_tick as nat) * abs_int(s.pool_cross_risk.total_account_value as int),
            ) as int,
        )
    } else {
        0
    }
}

/// The shares burned: the requested shares less the operator's fee, in the field.
pub open spec fn shares_burned(s: ForceBurnState, r: ForceBurnRules, shares: nat) -> nat {
    to_field(shares - operator_fee_share(s, r, shares))
}

/// The depositor's principal after the burn: its principal less its pro-rata share for all
/// the shares that leave it, in the field.
pub open spec fn principal_after_burn(s: ForceBurnState, r: ForceBurnRules, shares: nat) -> nat {
    let left = to_field(operator_fee_share(s, r, shares) + shares_burned(s, r, shares) as int);
    to_field(
        s.principal_amount@ - to_field(div_or_zero(s.principal_amount@ * left, s.owned_shares@) as int),
    )
}

/// The LIT the depositor has staked in the staking pool.
pub open spec fn staked_lit_amount(s: ForceBurnState, r: ForceBurnRules) -> nat {
    pool_share_value(
        s.staking_pool_total_shares@,
        s.staked_shares@,
        limbs_value(s.staking_pool_stake_balance@),
        limbs_value(s.stake_extension_multiplier@),
        r.initial_staking_share_value as nat,
    )
}

/// The constraints of a forced burn. Always: the share amount and the USDC value of the
/// requested shares fit the burn width, and that value, the principal paid for the shares and
/// the value of the burned shares each fit one field element; the strategy account's figures
/// can be read. When the burn is the slot's transaction: the record is signed by the
/// configured liquidity pool with the state's API key against the depositor; the staking pool
/// is the configured one and not nil; the slots hold USDC and LIT, the latter not empty; the
/// depositor is not the pool's operator; the share amount is not zero and at most both the
/// depositor's shares and the shares the pool can burn; the pool is an insurance fund not
/// being liquidated; and the depositor's stake allows no more than its principal left.
pub open spec fn force_burn_constraints_hold(
    tx: L2ForceBurnSharesTx,
    s: ForceBurnState,
    r: ForceBurnRules,
    is_enabled: bool,
) -> bool {
    let v = l2_force_burn_shares_tx_values(tx);
    let shares = v[3];
    let value = burn_usdc_value(s, r, shares);
    let burnable = to_field(
        div_or_zero(
            available_usdc_collateral(s.pool_strategy_risk) * s.pool_total_shares@,
            abs_int(s.pool_cross_risk.total_portfolio_value as int),
        ) as int,
    );
    &&& shares < pow2(r.max_burn_usdc_bits as nat)
    &&& value < p()
    &&& value < pow2(r.max_burn_usdc_bits as nat)
    &&& usdc_paid_for_shares(s, shares) < p()
    &&& burn_usdc_value(s, r, shares_burned(s, r, shares)) < p()
    &&& cross_risk_readable(s.pool_strategy_risk)
    &&& is_enabled ==> {
        &&& v[0] == s.share_owner_account_index@
        &&& v[1] == s.api_key_index@
        &&& v[2] == s.liquidity_pool_account_index@
        &&& v[0] == s.config_liquidity_pool_index@
        &&& s.staking_pool_account_index@ == s.config_staking_pool_index@
        &&& s.staking_pool_account_index@ != r.nil_account_index
        &&& s.usdc_slot_asset_index@ == r.usdc_asset_index
        &&& s.stake_slot_asset_index@ == r.lit_asset_index
        &&& !s.is_stake_asset_empty
        &&& s.share_owner_master_account_index@ != s.liquidity_pool_account_index@
        &&& shares != 0
        &&& s.is_share_owner_insurance_fund
        &&& !s.is_pool_in_liquidation
        &&& shares <= s.owned_shares@
        &&& shares <= burnable
        &&& r.lit_to_mint_shares_multiplier * staked_lit_amount(s, r) <= r.usdc_to_lit_conversion_rate
            * principal_after_burn(s, r, shares)
    }
}

/// The USDC value of burned shares is their pro-rata part of the pool's portfolio value
/// rounded down, scaled by the USDC multiplier (the initial share value for an empty pool);
/// and the principal paid for them is the depositor's principal pro rata, rounded down.
pub proof fn lemma_burn_values_round_down(s: ForceBurnState, r: ForceBurnRules, shares: nat)
    ensures
        ({
            let c = burn_usdc_value(s, r, shares);
            let t = s.pool_total_shares@;
            let m = r.usdc_to_collateral_multiplier as nat;
            let v = abs_int(s.pool_cross_risk.total_portfolio_value as int);
            &&& t == 0 ==> c == shares * r.initial_pool_share_value
            &&& t > 0 && m > 0 ==> c * (t * m) <= shares * v && shares * v < (c + 1) * (t * m)
        }),
        s.owned_shares@ > 0 ==> usdc_paid_for_shares(s, shares) * s.owned_shares@
            <= s.principal_amount@ * shares && s.principal_amount@ * shares < (usdc_paid_for_shares(
            s,
            shares,
        ) + 1) * s.owned_shares@,
{
    crate::pools::lemma_pool_share_value_rounds_down(
        s.pool_total_shares@,
        shares,
        abs_int(s.pool_cross_risk.total_portfolio_value as int),
        r.usdc_to_collateral_multiplier as nat,
        r.initial_pool_share_value as nat,
    );
    if s.owned_shares@ > 0 {
        crate::pools::lemma_div_or_zero_rounds_down(s.principal_amount@ * shares, s.owned_shares@);
    }
}

/// On a profit the operator's fee share is the profit times its fee times the pool's shares
/// in collateral units, over one fee tick of the pool's total account value, rounded down
/// (while that quotient is a field element).
pub proof fn lemma_burn_fee_rounds_down(s: ForceBurnState, r: ForceBurnRules, shares: nat)
    requires
        usdc_paid_for_shares(s, shares) < burn_usdc_value(s, r, shares),
        (r.fee_tick as nat) * abs_int(s.pool_cross_risk.total_account_value as int) > 0,
        div_or_zero(
            (burn_usdc_value(s, r, shares) - usdc_paid_for_shares(s, shares)) as nat
                * s.pool_operator_fee@ * (s.pool_total_shares@ * (r.usdc_to_collateral_multiplier as nat)),
            (r.fee_tick as nat) * abs_int(s.pool_cross_risk.total_account_value as int),
        ) < p(),
    ensures
        ({
            let profit = (burn_usdc_value(s, r, shares) - usdc_paid_for_shares(s, shares)) as nat;
            let gain = profit * s.pool_operator_fee@ * (s.pool_total_shares@
                * (r.usdc_to_collateral_multiplier as nat));
            let scale = (r.fee_tick as nat) * abs_int(s.pool_cross_risk.total_account_value as int);
            let fee = operator_fee_share(s, r, shares);
            fee * scale <= gain && gain < (fee + 1) * scale
        }),
{
    let profit = (burn_usdc_value(s, r, shares) - usdc_paid_for_shares(s, shares)) as nat;
    let gain = profit * s.pool_operator_fee@ * (s.pool_total_shares@
        * (r.usdc_to_collateral_multiplier as nat));
    let scale = (r.fee_tick as nat) * abs_int(s.pool_cross_risk.total_account_value as int);
    crate::field::lemma_to_field_small(div_or_zero(gain, scale) as int);
    crate::pools::lemma_div_or_zero_rounds_down(gain, scale);
}

/// A forced burn takes exactly the requested shares from the depositor: the operator's fee
/// share and the burned shares add up to them (in the field).
pub proof fn lemma_burn_splits_requested_shares(s: ForceBurnState, r: ForceBurnRules, shares: nat)
    requires
        shares < p(),
    ensures
        to_field(operator_fee_share(s, r, shares) + shares_burned(s, r, shares) as int) == shares,
{
    let f = operator_fee_share(s, r, shares) as int;
    crate::field::lemma_to_field_bound(0);
    if usdc_paid_for_shares(s, shares) < burn_usdc_value(s, r, shares) {
        crate::field::lemma_to_field_bound(
            div_or_zero(
                (burn_usdc_value(s, r, shares) - usdc_paid_for_shares(s, shares)) as nat
                    * s.pool_operator_fee@ * (s.pool_total_shares@
                    * (r.usdc_to_collateral_multiplier as nat)),
                (r.fee_tick as nat) * abs_int(s.pool_cross_risk.total_account_value as int),
            ) as int,
        );
    } else {
        crate::field::lemma_to_field_small(0);
    }
    crate::field::lemma_to_field_small(f);
    crate::field::lemma_to_field_small(shares as int);
    crate::field::lemma_to_field_add(f, shares - f);
    crate::field::lemma_to_field_small(shares as int);
}

/// Without a profit the operator takes no fee and every requested share is burned.
pub proof fn lemma_burn_without_profit_pays_no_fee(s: ForceBurnState, r: ForceBurnRules, shares: nat)
    requires
        usdc_paid_for_shares(s, shares) >= burn_usdc_value(s, r, shares),
        shares < p(),
    ensures
        operator_fee_share(s, r, shares) == 0,
        shares_burned(s, r, shares) == shares,
{
    crate::field::lemma_to_field_small(shares as int);
}

/// The depositor's principal falls by its principal's pro-rata part for the requested shares,
/// rounded down: `principal - new principal == principal * shares / owned` (in the field,
/// nothing for a depositor without shares).
pub proof fn lemma_burn_reduces_principal_pro_rata(s: ForceBurnState, r: ForceBurnRules, shares: nat)
    requires
        shares < p(),
    ensures
        to_field(s.principal_amount@ - principal_after_burn(s, r, shares)) == to_field(
            div_or_zero(s.principal_amount@ * shares, s.owned_shares@) as int,
        ),
{
    lemma_burn_splits_requested_shares(s, r, shares);
    let e = s.principal_amount@ as int;
    let d = to_field(div_or_zero(s.principal_amount@ * shares, s.owned_shares@) as int) as int;
    crate::field::lemma_field_bound(s.principal_amount);
    crate::field::lemma_to_field_small(e);
    crate::field::lemma_to_field_bound(div_or_zero(s.principal_amount@ * shares, s.owned_shares@) as int);
    crate::field::lemma_to_field_small(d);
    crate::field::lemma_to_field_sub(e, e - d);
    assert(e - (e - d) == d);
}

/// What a forced burn that can go ahead guarantees: a non-zero request within the depositor's
/// shares and within what the pool can burn, from an insurance-fund pool that is not being
/// liquidated.
pub proof fn lemma_burn_constraints_bound_request(
    tx: L2ForceBurnSharesTx,
    s: ForceBurnState,
    r: ForceBurnRules,
)
    requires
        force_burn_constraints_hold(tx, s, r, true),
    ensures
        ({
            let shares = l2_force_burn_shares_tx_values(tx)[3];
            &&& 0 < shares <= s.owned_shares@
            &&& shares <= to_field(
                div_or_zero(
                    available_usdc_collateral(s.pool_strategy_risk) * s.pool_total_shares@,
                    abs_int(s.pool_cross_risk.total_portfolio_value as int),
                ) as int,
            )
            &&& s.is_share_owner_insurance_fund && !s.is_pool_in_liquidation
        }),
{
}

/// `a <= b` on digits.
pub(crate) fn digits_le(a: &Vec<u32>, b: &Vec<u32>) -> (r: bool)
    ensures
        r == (limbs_value(a@) <= limbs_value(b@)),
{
    let b1 = digits_plus_one(b);
    let q = quotient_or_zero(a, &b1);
    proof {
        let x = limbs_value(a@) as int;
        let y = limbs_value(b1@) as int;
        if x < y {
            lemma_basic_div(x, y);
        } else {
            lemma_div_non_zero(x, y);
        }
    }
    digits_are_zero(&q)
}

/// The value of digits when it fits one field element.
pub(crate) fn digits_in_field(d: &Vec<u32>) -> (r: Option<u64>)
    ensures
        r is Some <==> limbs_value(d@) < p(),
        r matches Some(v) ==> v == limbs_value(d@),
{
    proof {
        reveal_with_fuel(limb_capacity, 3);
    }
    match digits_to_u64(d) {
        Some(v) => {
            if v < GOLDILOCKS_ORDER {
                Some(v)
            } else {
                None
            }
        },
        None => None,
    }
}

impl L2ForceBurnSharesTx {
    /// Checks the record as the forced-burn transaction of a block slot and works out the
    /// burn: `None` when the constraints of [`force_burn_constraints_hold`] cannot be met;
    /// otherwise the operator's fee share, the shares burned, their USDC value and the
    /// depositor's new principal.
    pub fn verify(&self, is_enabled: bool, s: &ForceBurnState, r: &ForceBurnRules) -> (res: Option<
        ForceBurnOutcome,
    >)
        requires
            force_burn_rules_valid(*r),
        ensures
            res is Some <==> force_burn_constraints_hold(*self, *s, *r, is_enabled),
            res matches Some(o) ==> {
                let shares = l2_force_burn_shares_tx_values(*self)[3];
                &&& o.operator_fee_share@ == operator_fee_share(*s, *r, shares)
                &&& o.shares_to_burn@ == shares_burned(*s, *r, shares)
                &&& o.shares_to_burn_usdc_value@ == burn_usdc_value(
                    *s,
                    *r,
                    shares_burned(*s, *r, shares),
                )
                &&& o.new_principal_amount@ == principal_after_burn(*s, *r, shares)
            },
    {
        let ghost v = l2_force_burn_shares_tx_values(*self);
        let shares_f = GoldilocksField::from_canonical_i64(self.share_amount);
        let shares = shares_f.to_canonical_u64();
        if !fits_bits(shares, r.max_burn_usdc_bits) {
            return None;
        }
        let total = s.pool_total_shares.to_canonical_u64();
        let mult = r.usdc_to_collateral_multiplier;
        let value_digits = get_shares_usdc_value_for_public_pool(
            &s.pool_cross_risk,
            total,
            shares,
            r.initial_pool_share_value,
            mult,
        );
        let value = match digits_in_field(&value_digits) {
            Some(x) => x,
            None => {
                return None;
            },
        };
        if !fits_bits(value, r.max_burn_usdc_bits) {
            return None;
        }
        let principal = s.principal_amount.to_canonical_u64();
        let owned = s.owned_shares.to_canonical_u64();
        proof {
            lemma_mul_upper_bound(principal as int, u64::MAX as int, shares as int, u64::MAX as int);
            assert(u64::MAX as int * u64::MAX as int <= u128::MAX) by (nonlinear_arith);
        }
        let paid_wide: u128 = if owned == 0 {
            0
        } else {
            (principal as u128 * shares as u128) / (owned as u128)
        };
        if paid_wide >= GOLDILOCKS_ORDER as u128 {
            return None;
        }
        let paid = paid_wide as u64;
        let burnable = match get_available_shares_to_burn_for_public_pool(
            &s.pool_strategy_risk,
            &s.pool_cross_risk,
            total,
        ) {
            Some(b) => b,
            None => {
                return None;
            },
        };
        let fee_share = if paid < value {
            let numerator = biguint_mul(
                &biguint_mul(
                    &digits_of_u64(value - paid),
                    &digits_of_u64(s.pool_operator_fee.to_canonical_u64()),
                ),
                &biguint_mul(&digits_of_u64(total), &digits_of_u64(mult)),
            );
            let denominator = biguint_mul(
                &digits_of_u64(r.fee_tick),
                &u128_digits(abs_i128(s.pool_cross_risk.total_account_value)),
            );
            digits_to_field(&quotient_or_zero(&numerator, &denominator))
        } else {
            GoldilocksField::zero()
        };
        let burned_f = shares_f.sub(&fee_share);
        let burned = burned_f.to_canonical_u64();
        let burned_value_digits = get_shares_usdc_value_for_public_pool(
            &s.pool_cross_risk,
            total,
            burned,
            r.initial_pool_share_value,
            mult,
        );
        let burned_value = match digits_in_field(&burned_value_digits) {
            Some(x) => x,
            None => {
                return None;
            },
        };
        let left = fee_share.add(&burned_f).to_canonical_u64();
        proof {
            lemma_mul_upper_bound(principal as int, u64::MAX as int, left as int, u64::MAX as int);
        }
        let delta_wide: u128 = if owned == 0 {
            0
        } else {
            (principal as u128 * left as u128) / (owned as u128)
        };
        let delta = GoldilocksField::from_canonical_u64(
            (delta_wide % (GOLDILOCKS_ORDER as u128)) as u64,
        );
        let new_principal = s.principal_amount.sub(&delta);

        if is_enabled {
            let staked_lit = get_shares_asset_value_for_staking_pool(
                s.staking_pool_total_shares.to_canonical_u64(),
                &s.staking_pool_stake_balance,
                &s.stake_extension_multiplier,
                s.staked_shares.to_canonical_u64(),
                r.initial_staking_share_value,
            );
            let allowed = biguint_mul(&digits_of_u64(r.lit_to_mint_shares_multiplier), &staked_lit);
            let needed = biguint_mul(
                &digits_of_u64(r.usdc_to_lit_conversion_rate),
                &digits_of_u64(new_principal.to_canonical_u64()),
            );
            let account = GoldilocksField::from_canonical_i64(self.account_index).to_canonical_u64();
            let depositor = GoldilocksField::from_canonical_i64(self.depositor_index).to_canonical_u64();
            let staking_pool = s.staking_pool_account_index.to_canonical_u64();
            let liquidity_pool = s.liquidity_pool_account_index.to_canonical_u64();
            let identities_ok = account == s.share_owner_account_index.to_canonical_u64()
                && (self.api_key_index as u64) == s.api_key_index.to_canonical_u64() && depositor
                == liquidity_pool && account == s.config_liquidity_pool_index.to_canonical_u64()
                && staking_pool == s.config_staking_pool_index.to_canonical_u64() && staking_pool
                != r.nil_account_index;
            let assets_ok = s.usdc_slot_asset_index.to_canonical_u64() == r.usdc_asset_index
                && s.stake_slot_asset_index.to_canonical_u64() == r.lit_asset_index
                && !s.is_stake_asset_empty;
            let pool_ok = s.share_owner_master_account_index.to_canonical_u64() != liquidity_pool
                && s.is_share_owner_insurance_fund && !s.is_pool_in_liquidation;
            let amount_ok = shares != 0 && shares <= owned && shares <= burnable.to_canonical_u64();
            if !(identities_ok && assets_ok && pool_ok && amount_ok && digits_le(&allowed, &needed)) {
                return None;
            }
        }
        proof {
            assert(v[3] == shares);
        }
        Some(
            ForceBurnOutcome {
                operator_fee_share: fee_share,
                shares_to_burn: burned_f,
                shares_to_burn_usdc_value: GoldilocksField::from_canonical_u64(burned_value),
                new_principal_amount: new_principal,
            },
        )
    }
}

} // verus!
