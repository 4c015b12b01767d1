use vstd::prelude::*;
use vstd::arithmetic::power2::pow2;
use crate::field::{GoldilocksField, p, to_field};
use crate::limbs::limbs_value;
use crate::matching::fits_bits;
use crate::liquidation::{RiskParameters, abs_int, pow2_96};
use crate::pools::{
    pool_share_value, biguint_mul, digits_of_u64, get_shares_usdc_value_for_public_pool,
    get_shares_asset_value_for_staking_pool,
};
use crate::force_burn::{digits_le, digits_in_field};
use crate::transactions::{L2MintSharesTx, l2_mint_shares_tx_values};

verus! {

/// The codes and figures the share-minting rules use: the USDC and LIT asset indices, the
/// public-pool and insurance-fund account kinds, the active pool status, the nil account index,
/// the bit widths of a pool's shares, of a mint's USDC value and of a principal, the
/// USDC-to-collateral multiplier, the share tick, the USDC a staked LIT allows, the
/// USDC-to-LIT conversion rate and the initial share values of a public and a staking pool.
#[derive(Clone, Copy, Debug)]
pub struct MintSharesRules {
    pub usdc_asset_index: u64,
    pub lit_asset_index: u64,
    pub public_pool_account_type: u64,
    pub insurance_fund_account_type: u64,
    pub active_public_pool: u64,
    pub nil_account_index: u64,
    pub max_pool_shares_bits: u32,
    pub max_mint_usdc_bits: u32,
    pub max_pool_principal_bits: u32,
    pub usdc_to_collateral_multiplier: u64,
    pub share_tick: u64,
    pub lit_to_mint_shares_multiplier: u64,
    pub usdc_to_lit_conversion_rate: u64,
    pub initial_pool_share_value: u64,
    pub initial_staking_share_value: u64,
}

/// The rules' codes are field constants and their widths are below 64 bits.
pub open spec fn mint_shares_rules_valid(r: MintSharesRules) -> bool {
    &&& r.usdc_asset_index < p()
    &&& r.lit_asset_index < p()
    &&& r.public_pool_account_type < p()
    &&& r.insurance_fund_account_type < p()
    &&& r.active_public_pool < p()
    &&& r.nil_account_index < p()
    &&& r.max_pool_shares_bits < 64
    &&& r.max_mint_usdc_bits < 64
    &&& r.max_pool_principal_bits < 64
}

/// What the share-minting check reads of the transaction state: the minter's account index,
/// the API key, the pool account with its kind, status, total and operator shares, minimum
/// operator share rate, master account and cross risk figures; the asset in the transaction's
/// slot; the system configuration's liquidity and staking pool indices; the staking pool
/// account and its master; the asset in the stake slot and whether it is empty; the collateral
/// the minter can spend; the principal the minter already has in the pool; and the minter's
/// stake in the staking pool with that pool's shares, stake balance and extension multiplier.
#[derive(Clone, Debug)]
pub struct MintSharesState {
    pub owner_account_index: GoldilocksField,
    pub api_key_index: GoldilocksField,
    pub pool_account_index: GoldilocksField,
    pub pool_account_type: GoldilocksField,
    pub pool_status: GoldilocksField,
    pub pool_total_shares: GoldilocksField,
    pub pool_operator_shares: GoldilocksField,
    pub pool_min_operator_share_rate: GoldilocksField,
    pub pool_master_account_index: GoldilocksField,
    pub pool_cross_risk: RiskParameters,
    pub tx_slot_asset_index: GoldilocksField,
    pub config_liquidity_pool_index: GoldilocksField,
    pub config_staking_pool_index: GoldilocksField,
    pub staking_pool_account_index: GoldilocksField,
    pub staking_pool_master_account_index: GoldilocksField,
    pub stake_slot_asset_index: GoldilocksField,
    pub is_stake_asset_empty: bool,
    pub available_collateral: Vec<u32>,
    pub principal_amount: GoldilocksField,
    pub staked_shares: GoldilocksField,
    pub staking_pool_total_shares: GoldilocksField,
    pub staking_pool_stake_balance: Vec<u32>,
    pub stake_extension_multiplier: Vec<u32>,
}

/// What a mint decides: whether the minter is the pool's operator, the USDC the shares cost,
/// the pool's total shares afterwards, the minter's principal afterwards (zero for the
/// operator) and the collateral the shares take.
#[derive(Clone, Copy, Debug)]
pub struct MintSharesOutcome {
    pub is_operator: bool,
    pub principal_amount: u64,
    pub new_total_shares: GoldilocksField,
    pub new_principal_amount: GoldilocksField,
    pub collateral_to_mint_shares: u128,
}

/// The USDC `shares` new shares of the pool cost.
pub open spec fn mint_usdc_value(s: MintSharesState, r: MintSharesRules, shares: nat) -> nat {
    pool_share_value(
        s.pool_total_shares@,
        shares,
        abs_int(s.pool_cross_risk.total_portfolio_value as int),
        r.usdc_to_collateral_multiplier as nat,
        r.initial_pool_share_value as nat,
    )
}

/// Whether the minter is the pool's operator.
pub open spec fn minter_is_operator(s: MintSharesState) -> bool {
    s.owner_account_index@ == s.pool_master_account_index@
}

/// The minter's principal after the mint: its principal plus the cost of the shares, in the
/// field, for a minter that is not the operator of an enabled mint; zero otherwise.
pub open spec fn principal_after_mint(
    s: MintSharesState,
    r: MintSharesRules,
    shares: nat,
    is_enabled: bool,
) -> nat {
    if is_enabled && !minter_is_operator(s) {
        to_field(s.principal_amount@ + mint_usdc_value(s, r, shares) as int)
    } else {
        0
    }
}

/// The LIT the minter has staked in the staking pool.
pub open spec fn minter_staked_lit(s: MintSharesState, r: MintSharesRules) -> nat {
    pool_share_value(
        s.staking_pool_total_shares@,
        s.staked_shares@,
        limbs_value(s.staking_pool_stake_balance@),
        limbs_value(s.stake_extension_multiplier@),
        r.initial_staking_share_value as nat,
    )
}

/// The constraints of a share mint. Always: the share amount and the pool's new total fit the
/// share width, the shares' cost fits the mint width, its collateral fits 96 bits, and the
/// minter's new principal fits the principal width. When the mint is the slot's transaction:
/// the record is signed by the minter with the state's API key for the pool in the slot; the
/// transaction's asset is USDC; for the liquidity pool, the staking pool is the configured one
/// and the stake slot holds LIT; the share amount is not zero; the pool is an active public
/// pool or insurance fund; the minter's collateral covers the cost; a minter other than the
/// operator leaves the operator at least its minimum share rate of the new total; and a
/// minter other than either operator adding to the liquidity pool, with LIT registered and a
/// staking pool present, stays within what its stake allows.
pub open spec fn mint_shares_constraints_hold(
    tx: L2MintSharesTx,
    s: MintSharesState,
    r: MintSharesRules,
    is_enabled: bool,
) -> bool {
    let v = l2_mint_shares_tx_values(tx);
    let shares = v[3];
    let new_total = to_field(s.pool_total_shares@ + shares as int);
    let cost = mint_usdc_value(s, r, shares);
    let is_llp = v[2] == s.config_liquidity_pool_index@;
    let not_operator = is_enabled && !minter_is_operator(s);
    let new_principal = principal_after_mint(s, r, shares, is_enabled);
    let stake_limited = not_operator && !s.is_stake_asset_empty && is_llp
        && s.owner_account_index@ != s.staking_pool_master_account_index@
        && s.staking_pool_account_index@ != r.nil_account_index;
    &&& shares < pow2(r.max_pool_shares_bits as nat)
    &&& new_total < pow2(r.max_pool_shares_bits as nat)
    &&& cost < pow2(r.max_mint_usdc_bits as nat)
    &&& cost * r.usdc_to_collateral_multiplier < pow2_96()
    &&& new_principal < pow2(r.max_pool_principal_bits as nat)
    &&& is_enabled ==> {
        &&& v[0] == s.owner_account_index@
        &&& v[1] == s.api_key_index@
        &&& v[2] == s.pool_account_index@
        &&& s.tx_slot_asset_index@ == r.usdc_asset_index
        &&& shares != 0
        &&& s.pool_account_type@ == r.public_pool_account_type || s.pool_account_type@
            == r.insurance_fund_account_type
        &&& s.pool_status@ == r.active_public_pool
        &&& cost * r.usdc_to_collateral_multiplier <= limbs_value(s.available_collateral@)
    }
    &&& is_enabled && is_llp ==> {
        &&& s.staking_pool_account_index@ == s.config_staking_pool_index@
        &&& s.stake_slot_asset_index@ == r.lit_asset_index
    }
    &&& not_operator ==> new_total * s.pool_min_operator_share_rate@ <= s.pool_operator_shares@
        * r.share_tick
    &&& stake_limited ==> new_principal * r.usdc_to_lit_conversion_rate
        <= r.lit_to_mint_shares_multiplier * minter_staked_lit(s, r)
}

/// A minter other than the operator adds the cost of its new shares to the principal it
/// already has in the pool: the new principal less the old is the cost, in the field. The
/// operator, and a mint that is not the slot's transaction, keep no principal.
pub proof fn lemma_mint_principal_adds_cost(s: MintSharesState, r: MintSharesRules, shares: nat, is_enabled: bool)
    ensures
        is_enabled && !minter_is_operator(s) ==> to_field(
            principal_after_mint(s, r, shares, is_enabled) - s.principal_amount@,
        ) == to_field(mint_usdc_value(s, r, shares) as int),
        !is_enabled || minter_is_operator(s) ==> principal_after_mint(s, r, shares, is_enabled) == 0,
{
    let old_p = s.principal_amount@ as int;
    let c = mint_usdc_value(s, r, shares) as int;
    crate::field::lemma_field_bound(s.principal_amount);
    crate::field::lemma_to_field_small(old_p);
    crate::field::lemma_to_field_sub(old_p + c, old_p);
}

/// Two mints that differ only in the minter's earlier principal end with principals that
/// differ by the same amount: the earlier principal is carried over, not replaced.
pub proof fn lemma_mint_principal_carries_over(
    s1: MintSharesState,
    s2: MintSharesState,
    r: MintSharesRules,
    shares: nat,
)
    requires
        s1.owner_account_index == s2.owner_account_index,
        s1.pool_master_account_index == s2.pool_master_account_index,
        s1.pool_total_shares == s2.pool_total_shares,
        s1.pool_cross_risk == s2.pool_cross_risk,
        !minter_is_operator(s1),
    ensures
        to_field(
            principal_after_mint(s1, r, shares, true) - principal_after_mint(s2, r, shares, true),
        ) == to_field(s1.principal_amount@ - s2.principal_amount@),
{
    let c = mint_usdc_value(s1, r, shares) as int;
    assert(mint_usdc_value(s2, r, shares) == c);
    crate::field::lemma_to_field_sub(s1.principal_amount@ + c, s2.principal_amount@ + c);
    assert((s1.principal_amount@ + c) - (s2.principal_amount@ + c) == s1.principal_amount@
        - s2.principal_amount@);
}

/// The cost of minted shares is their pro-rata part of the pool's portfolio value rounded
/// down, scaled by the USDC multiplier (the initial share value for an empty pool).
pub proof fn lemma_mint_cost_rounds_down(s: MintSharesState, r: MintSharesRules, shares: nat)
    ensures
        ({
            let c = mint_usdc_value(s, r, shares);
            let t = s.pool_total_shares@;
            let m = r.usdc_to_collateral_multiplier as nat;
            let v = abs_int(s.pool_cross_risk.total_portfolio_value as int);
            &&& t == 0 ==> c == shares * r.initial_pool_share_value
            &&& t > 0 && m > 0 ==> c * (t * m) <= shares * v && shares * v < (c + 1) * (t * m)
        }),
{
    crate::pools::lemma_pool_share_value_rounds_down(
        s.pool_total_shares@,
        shares,
        abs_int(s.pool_cross_risk.total_portfolio_value as int),
        r.usdc_to_collateral_multiplier as nat,
        r.initial_pool_share_value as nat,
    );
}

/// What a mint that can go ahead guarantees: a non-zero number of shares into an active pool,
/// paid for by collateral the minter has, and, for a minter other than the operator, leaving
/// the operator at least its minimum share rate of the new total.
pub proof fn lemma_mint_constraints_protect_pool(
    tx: L2MintSharesTx,
    s: MintSharesState,
    r: MintSharesRules,
)
    requires
        mint_shares_constraints_hold(tx, s, r, true),
    ensures
        ({
            let shares = l2_mint_shares_tx_values(tx)[3];
            let new_total = to_field(s.pool_total_shares@ + shares as int);
            &&& shares != 0
            &&& s.pool_status@ == r.active_public_pool
            &&& mint_usdc_value(s, r, shares) * r.usdc_to_collateral_multiplier <= limbs_value(
                s.available_collateral@,
            )
            &&& !minter_is_operator(s) ==> new_total * s.pool_min_operator_share_rate@
                <= s.pool_operator_shares@ * r.share_tick
        }),
{
}

impl L2MintSharesTx {
    /// Checks the record as the share-mint transaction of a block slot and works out the mint:
    /// `None` when the constraints of [`mint_shares_constraints_hold`] cannot be met; otherwise
    /// whether the minter is the operator, the shares' cost, the pool's new total, the minter's
    /// new principal and the collateral the shares take.
    pub fn verify(&self, is_enabled: bool, s: &MintSharesState, r: &MintSharesRules) -> (res: Option<
        MintSharesOutcome,
    >)
        requires
            mint_shares_rules_valid(*r),
        ensures
            res is Some <==> mint_shares_constraints_hold(*self, *s, *r, is_enabled),
            res matches Some(o) ==> {
                let shares = l2_mint_shares_tx_values(*self)[3];
                &&& o.is_operator == minter_is_operator(*s)
                &&& o.principal_amount == mint_usdc_value(*s, *r, shares)
                &&& o.new_total_shares@ == to_field(s.pool_total_shares@ + shares as int)
                &&& o.new_principal_amount@ == principal_after_mint(*s, *r, shares, is_enabled)
                &&& o.collateral_to_mint_shares == mint_usdc_value(*s, *r, shares)
                    * r.usdc_to_collateral_multiplier
                &&& is_enabled && !o.is_operator ==> o.new_principal_amount@ == to_field(
                    s.principal_amount@ + o.principal_amount as int,
                )
                &&& !is_enabled || o.is_operator ==> o.new_principal_amount@ == 0
                &&& o.collateral_to_mint_shares == o.principal_amount as nat
                    * r.usdc_to_collateral_multiplier
            },
    {
        let shares_f = GoldilocksField::from_canonical_i64(self.share_amount);
        let shares = shares_f.to_canonical_u64();
        if !fits_bits(shares, r.max_pool_shares_bits) {
            return None;
        }
        let new_total = s.pool_total_shares.add(&shares_f);
        if !fits_bits(new_total.to_canonical_u64(), r.max_pool_shares_bits) {
            return None;
        }
        let cost_digits = get_shares_usdc_value_for_public_pool(
            &s.pool_cross_risk,
            s.pool_total_shares.to_canonical_u64(),
            shares,
            r.initial_pool_share_value,
            r.usdc_to_collateral_multiplier,
        );
        let cost = match digits_in_field(&cost_digits) {
            Some(c) => c,
            None => {
                proof {
                    vstd::arithmetic::power2::lemma2_to64();
                    vstd::arithmetic::power2::lemma2_to64_rest();
                    if r.max_mint_usdc_bits < 63 {
                        vstd::arithmetic::power2::lemma_pow2_strictly_increases(
                            r.max_mint_usdc_bits as nat,
                            63,
                        );
                    }
                }
                return None;
            },
        };
        if !fits_bits(cost, r.max_mint_usdc_bits) {
            return None;
        }
        proof {
            vstd::arithmetic::mul::lemma_mul_upper_bound(
                cost as int,
                u64::MAX as int,
                r.usdc_to_collateral_multiplier as int,
                u64::MAX as int,
            );
            assert(u64::MAX as int * u64::MAX as int <= u128::MAX) by (nonlinear_arith);
        }
        let collateral: u128 = cost as u128 * r.usdc_to_collateral_multiplier as u128;
        if collateral >= 79228162514264337593543950336u128 {
            return None;
        }
        let is_operator = s.owner_account_index.equals(&s.pool_master_account_index);
        let not_operator = is_enabled && !is_operator;
        let new_principal = if not_operator {
            s.principal_amount.add(&GoldilocksField::from_canonical_u64(cost))
        } else {
            GoldilocksField::zero()
        };
        if !fits_bits(new_principal.to_canonical_u64(), r.max_pool_principal_bits) {
            return None;
        }
        let account = GoldilocksField::from_canonical_i64(self.account_index).to_canonical_u64();
        let pool = GoldilocksField::from_canonical_i64(self.public_pool_index).to_canonical_u64();
        let is_llp = pool == s.config_liquidity_pool_index.to_canonical_u64();
        if is_enabled {
            let available_ok = digits_le(
                &biguint_mul(&digits_of_u64(cost), &digits_of_u64(r.usdc_to_collateral_multiplier)),
                &s.available_collateral,
            );
            let pool_type = s.pool_account_type.to_canonical_u64();
            if !(account == s.owner_account_index.to_canonical_u64() && (self.api_key_index as u64)
                == s.api_key_index.to_canonical_u64() && pool
                == s.pool_account_index.to_canonical_u64()
                && s.tx_slot_asset_index.to_canonical_u64() == r.usdc_asset_index && shares != 0
                && (pool_type == r.public_pool_account_type || pool_type
                == r.insurance_fund_account_type) && s.pool_status.to_canonical_u64()
                == r.active_public_pool && available_ok) {
                return None;
            }
            if is_llp && !(s.staking_pool_account_index.equals(&s.config_staking_pool_index)
                && s.stake_slot_asset_index.to_canonical_u64() == r.lit_asset_index) {
                return None;
            }
        }
        if not_operator {
            let lhs = biguint_mul(
                &digits_of_u64(new_total.to_canonical_u64()),
                &digits_of_u64(s.pool_min_operator_share_rate.to_canonical_u64()),
            );
            let rhs = biguint_mul(
                &digits_of_u64(s.pool_operator_shares.to_canonical_u64()),
                &digits_of_u64(r.share_tick),
            );
            if !digits_le(&lhs, &rhs) {
                return None;
            }
            let stake_limited = !s.is_stake_asset_empty && is_llp
                && !s.owner_account_index.equals(&s.staking_pool_master_account_index)
                && s.staking_pool_account_index.to_canonical_u64() != r.nil_account_index;
            if stake_limited {
                let staked_lit = get_shares_asset_value_for_staking_pool(
                    s.staking_pool_total_shares.to_canonical_u64(),
                    &s.staking_pool_stake_balance,
                    &s.stake_extension_multiplier,
                    s.staked_shares.to_canonical_u64(),
                    r.initial_staking_share_value,
                );
                let wanted = biguint_mul(
                    &digits_of_u64(new_principal.to_canonical_u64()),
                    &digits_of_u64(r.usdc_to_lit_conversion_rate),
                );
                let allowed = biguint_mul(
                    &digits_of_u64(r.lit_to_mint_shares_multiplier),
                    &staked_lit,
                );
                if !digits_le(&wanted, &allowed) {
                    return None;
                }
            }
        }
        Some(
            MintSharesOutcome {
                is_operator,
                principal_amount: cost,
                new_total_shares: new_total,
                new_principal_amount: new_principal,
                collateral_to_mint_shares: collateral,
            },
        )
    }
}

} // verus!
