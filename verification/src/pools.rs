use vstd::prelude::*;
use vstd::arithmetic::div_mod::*;
use vstd::arithmetic::mul::*;
use crate::limbs::{limbs_value, is_minimal};
use crate::div_rem::{biguint_div_rem, digits_are_zero};
use crate::schnorr::trim_digits;
use crate::field::{GoldilocksField, p, to_field, lemma_to_field_add, lemma_to_field_small};
use crate::liquidation::{RiskParameters, abs_int, abs_i128, available_usdc_collateral, get_available_usdc_collateral};

verus! {

/// `num::BigUint` multiplication: the digits of `a * b`, shortest form.
#[verifier::external_body]
pub(crate) fn biguint_mul(a: &Vec<u32>, b: &Vec<u32>) -> (r: Vec<u32>)
    ensures
        limbs_value(r@) == limbs_value(a@) * limbs_value(b@),
        is_minimal(r@),
{
    (num::BigUint::new(a.clone()) * num::BigUint::new(b.clone())).to_u32_digits()
}

/// The quotient of a big-integer division, and zero for a zero divisor.
pub open spec fn div_or_zero(a: nat, b: nat) -> nat {
    if b == 0 {
        0
    } else {
        a / b
    }
}

/// The shortest 32-bit digits of a `u128`.
pub(crate) fn u128_digits(x: u128) -> (r: Vec<u32>)
    ensures
        limbs_value(r@) == x as nat,
        is_minimal(r@),
{
    let d0 = x as u32;
    let d1 = (x >> 32u128) as u32;
    let d2 = (x >> 64u128) as u32;
    let d3 = (x >> 96u128) as u32;
    assert(x == d0 as u128 + 4294967296u128 * (d1 as u128 + 4294967296u128 * (d2 as u128
        + 4294967296u128 * d3 as u128))) by (bit_vector)
        requires
            d0 == x as u32,
            d1 == (x >> 32u128) as u32,
            d2 == (x >> 64u128) as u32,
            d3 == (x >> 96u128) as u32,
    ;
    let d = vec![d0, d1, d2, d3];
    proof {
        let s1 = d@.drop_first();
        let s2 = s1.drop_first();
        let s3 = s2.drop_first();
        assert(s3.len() == 1);
        assert(s3.drop_first() =~= Seq::<u32>::empty());
        assert(limbs_value(s3.drop_first()) == 0);
        assert(s3[0] == d3 && s2[0] == d2 && s1[0] == d1 && d@[0] == d0);
        assert(limbs_value(s3) == d3 as nat);
        assert(limbs_value(s2) == d2 as nat + 4294967296 * d3 as nat);
        assert(limbs_value(s1) == d1 as nat + 4294967296 * (d2 as nat + 4294967296 * d3 as nat));
    }
    trim_digits(d)
}

/// The shortest 32-bit digits of a `u64`.
pub(crate) fn digits_of_u64(x: u64) -> (r: Vec<u32>)
    ensures
        limbs_value(r@) == x as nat,
{
    u128_digits(x as u128)
}

/// `a / b` on digits, and zero when `b` is zero.
pub(crate) fn quotient_or_zero(a: &Vec<u32>, b: &Vec<u32>) -> (r: Vec<u32>)
    ensures
        limbs_value(r@) == div_or_zero(limbs_value(a@), limbs_value(b@)),
{
    if digits_are_zero(b) {
        Vec::new()
    } else {
        let (q, m) = biguint_div_rem(a, b);
        proof {
            lemma_fundamental_div_mod_converse(
                limbs_value(a@) as int,
                limbs_value(b@) as int,
                limbs_value(q@) as int,
                limbs_value(m@) as int,
            );
        }
        q
    }
}

/// The field element a digit string spells: its value reduced modulo the prime, as the
/// circuit reads big-integer limbs into one wire without a range check.
pub(crate) fn digits_to_field(d: &Vec<u32>) -> (r: GoldilocksField)
    ensures
        r@ == to_field(limbs_value(d@) as int),
{
    let radix = GoldilocksField::from_canonical_u64(4294967296);
    let mut acc = GoldilocksField::zero();
    let mut i: usize = d.len();
    proof {
        assert(d@.subrange(i as int, d@.len() as int) =~= Seq::<u32>::empty());
        lemma_to_field_small(0);
    }
    while i > 0
        invariant
            i <= d@.len(),
            radix@ == 4294967296,
            acc@ == to_field(limbs_value(d@.subrange(i as int, d@.len() as int)) as int),
        decreases i,
    {
        i = i - 1;
        let digit = GoldilocksField::from_canonical_u32(d[i]);
        proof {
            let s = d@.subrange(i as int, d@.len() as int);
            let t = d@.subrange(i + 1, d@.len() as int);
            assert(s.drop_first() =~= t);
            assert(s[0] == d@[i as int]);
            lemma_step_to_field(limbs_value(t) as int, d@[i as int] as int);
        }
        acc = acc.mul(&radix).add(&digit);
    }
    proof {
        assert(d@.subrange(0, d@.len() as int) =~= d@);
    }
    acc
}

/// One more limb below an already reduced value.
proof fn lemma_step_to_field(v: int, x: int)
    requires
        0 <= x < 4294967296,
    ensures
        to_field(to_field((to_field(v) * 4294967296) as int) + x) == to_field(x + 4294967296 * v),
{
    vstd::arithmetic::div_mod::lemma_mul_mod_noop_left(v, 4294967296, p() as int);
    lemma_to_field_small(x);
    lemma_to_field_add((to_field(v) * 4294967296) as int, x);
    lemma_to_field_add(v * 4294967296, x);
    lemma_mul_is_commutative(v, 4294967296);
}

/// A share quotient `value * total / base` stays within `total` when `value <= base`.
proof fn lemma_share_quotient_bound(value: nat, total: nat, base: nat)
    requires
        value <= base,
    ensures
        div_or_zero(value * total, base) <= total,
{
    if base > 0 {
        lemma_mul_inequality(value as int, base as int, total as int);
        lemma_mul_is_commutative(base as int, total as int);
        lemma_div_is_ordered((value * total) as int, (total * base) as int, base as int);
        lemma_div_multiples_vanish(total as int, base as int);
    }
}

/// A quotient rounds down: `q * b <= a < (q + 1) * b` for a non-zero divisor.
pub proof fn lemma_div_or_zero_rounds_down(a: nat, b: nat)
    requires
        b > 0,
    ensures
        div_or_zero(a, b) * b <= a,
        a < (div_or_zero(a, b) + 1) * b,
{
    lemma_fundamental_div_mod(a as int, b as int);
    lemma_mod_bound(a as int, b as int);
    let q = (a / b) as int;
    lemma_mul_is_commutative(q, b as int);
    lemma_mul_is_distributive_add(b as int, q, 1);
    lemma_mul_is_commutative(q + 1, b as int);
}

/// The shares a staking pool can burn: its available balance times its total shares, over its
/// whole balance (zero for an empty balance), read into one field element (reduced modulo the
/// prime).
pub fn get_available_shares_to_burn_for_staking_pool(
    total_shares: u64,
    available_asset_balance: &Vec<u32>,
    asset_balance: &Vec<u32>,
) -> (r: GoldilocksField)
    ensures
        r@ == to_field(
            div_or_zero(
                limbs_value(available_asset_balance@) * (total_shares as nat),
                limbs_value(asset_balance@),
            ) as int,
        ),
        limbs_value(available_asset_balance@) <= limbs_value(asset_balance@) && total_shares < p()
            ==> r@ <= total_shares,
        limbs_value(available_asset_balance@) <= limbs_value(asset_balance@) && total_shares < p()
            && limbs_value(asset_balance@) > 0 ==> r@ * limbs_value(asset_balance@) <= limbs_value(
            available_asset_balance@,
        ) * (total_shares as nat) && limbs_value(available_asset_balance@) * (total_shares as nat)
            < (r@ + 1) * limbs_value(asset_balance@),
{
    let total = digits_of_u64(total_shares);
    let product = biguint_mul(available_asset_balance, &total);
    let q = quotient_or_zero(&product, asset_balance);
    let r = digits_to_field(&q);
    proof {
        if limbs_value(available_asset_balance@) <= limbs_value(asset_balance@) && total_shares < p() {
            lemma_share_quotient_bound(
                limbs_value(available_asset_balance@),
                total_shares as nat,
                limbs_value(asset_balance@),
            );
            lemma_to_field_small(limbs_value(q@) as int);
            if limbs_value(asset_balance@) > 0 {
                lemma_div_or_zero_rounds_down(
                    limbs_value(available_asset_balance@) * (total_shares as nat),
                    limbs_value(asset_balance@),
                );
            }
        }
    }
    r
}

/// The value of `share_amount` shares of a pool: `share_amount` times the initial share value
/// for a pool without shares, else `share_amount * pool_value / (total_shares * multiplier)`
/// (zero when that divisor is zero).
pub open spec fn pool_share_value(
    total_shares: nat,
    share_amount: nat,
    pool_value: nat,
    multiplier: nat,
    initial_share_value: nat,
) -> nat {
    if total_shares == 0 {
        share_amount * initial_share_value
    } else {
        div_or_zero(share_amount * pool_value, total_shares * multiplier)
    }
}

/// The value of shares is the pool's value shared out in proportion, rounded down: for a pool
/// with shares and a non-zero multiplier, `r` is the largest value with
/// `r * total_shares * multiplier <= share_amount * pool_value`; a pool without shares values
/// each share at the initial value; a zero multiplier values shares at nothing.
pub proof fn lemma_pool_share_value_rounds_down(
    total_shares: nat,
    share_amount: nat,
    pool_value: nat,
    multiplier: nat,
    initial_share_value: nat,
)
    ensures
        ({
            let r = pool_share_value(
                total_shares,
                share_amount,
                pool_value,
                multiplier,
                initial_share_value,
            );
            &&& total_shares == 0 ==> r == share_amount * initial_share_value
            &&& total_shares > 0 && multiplier > 0 ==> r * (total_shares * multiplier)
                <= share_amount * pool_value && share_amount * pool_value < (r + 1) * (
            total_shares * multiplier)
            &&& total_shares > 0 && multiplier == 0 ==> r == 0
        }),
{
    if total_shares > 0 {
        let d = total_shares * multiplier;
        if multiplier > 0 {
            lemma_mul_strictly_positive(total_shares as int, multiplier as int);
            let a = (share_amount * pool_value) as int;
            lemma_fundamental_div_mod(a, d as int);
            lemma_mod_bound(a, d as int);
            let q = a / (d as int);
            lemma_mul_is_commutative(q, d as int);
            lemma_mul_is_distributive_add(d as int, q, 1);
            lemma_mul_is_commutative(q + 1, d as int);
        } else {
            lemma_mul_basics(total_shares as int);
        }
    }
}

/// [`pool_share_value`] on digits.
fn share_value(
    total_shares: u64,
    share_amount: u64,
    pool_value: &Vec<u32>,
    multiplier: &Vec<u32>,
    initial_share_value: u64,
) -> (r: Vec<u32>)
    ensures
        limbs_value(r@) == pool_share_value(
            total_shares as nat,
            share_amount as nat,
            limbs_value(pool_value@),
            limbs_value(multiplier@),
            initial_share_value as nat,
        ),
{
    let shares = digits_of_u64(share_amount);
    if total_shares == 0 {
        biguint_mul(&shares, &digits_of_u64(initial_share_value))
    } else {
        let numerator = biguint_mul(&shares, pool_value);
        let denominator = biguint_mul(&digits_of_u64(total_shares), multiplier);
        quotient_or_zero(&numerator, &denominator)
    }
}

/// The asset value of `share_amount` shares of a staking pool holding `asset_balance`, whose
/// asset has extension multiplier `asset_extension_multiplier`; a pool without shares values
/// each share at `initial_pool_share_value`.
pub fn get_shares_asset_value_for_staking_pool(
    total_shares: u64,
    asset_balance: &Vec<u32>,
    asset_extension_multiplier: &Vec<u32>,
    share_amount: u64,
    initial_pool_share_value: u64,
) -> (r: Vec<u32>)
    ensures
        limbs_value(r@) == pool_share_value(
            total_shares as nat,
            share_amount as nat,
            limbs_value(asset_balance@),
            limbs_value(asset_extension_multiplier@),
            initial_pool_share_value as nat,
        ),
{
    share_value(
        total_shares,
        share_amount,
        asset_balance,
        asset_extension_multiplier,
        initial_pool_share_value,
    )
}

/// The USDC value of `share_amount` shares of a public pool with `total_shares` shares, read
/// against the magnitude of its total portfolio value scaled down by
/// `usdc_to_collateral_multiplier`; a pool without shares values each share at
/// `initial_pool_share_value`.
pub fn get_shares_usdc_value_for_public_pool(
    risk_info: &RiskParameters,
    total_shares: u64,
    share_amount: u64,
    initial_pool_share_value: u64,
    usdc_to_collateral_multiplier: u64,
) -> (r: Vec<u32>)
    ensures
        limbs_value(r@) == pool_share_value(
            total_shares as nat,
            share_amount as nat,
            abs_int(risk_info.total_portfolio_value as int),
            usdc_to_collateral_multiplier as nat,
            initial_pool_share_value as nat,
        ),
{
    let portfolio = u128_digits(abs_i128(risk_info.total_portfolio_value));
    let multiplier = digits_of_u64(usdc_to_collateral_multiplier);
    share_value(total_shares, share_amount, &portfolio, &multiplier, initial_pool_share_value)
}

/// The shares a public pool can burn: the USDC collateral the strategy account can draw,
/// times the pool's total shares, over the magnitude of the cross account's total portfolio
/// value (zero when that is zero), read into one field element (reduced modulo the prime).
/// `None` exactly when the strategy account's available collateral is undefined (see
/// [`get_available_usdc_collateral`]).
pub fn get_available_shares_to_burn_for_public_pool(
    strategy_risk_info: &RiskParameters,
    cross_risk_info: &RiskParameters,
    total_shares: u64,
) -> (r: Option<GoldilocksField>)
    ensures
        r is None <==> strategy_risk_info.is_healthy && abs_int(
            strategy_risk_info.total_account_value as int,
        ) < strategy_risk_info.initial_margin_requirement,
        r matches Some(v) ==> v@ == to_field(
            div_or_zero(
                available_usdc_collateral(*strategy_risk_info) * (total_shares as nat),
                abs_int(cross_risk_info.total_portfolio_value as int),
            ) as int,
        ),
        r matches Some(v) ==> (available_usdc_collateral(*strategy_risk_info) <= abs_int(
            cross_risk_info.total_portfolio_value as int,
        ) && total_shares < p() ==> v@ <= total_shares),
        r matches Some(v) ==> (available_usdc_collateral(*strategy_risk_info) <= abs_int(
            cross_risk_info.total_portfolio_value as int,
        ) && total_shares < p() && abs_int(cross_risk_info.total_portfolio_value as int) > 0 ==> {
            let base = abs_int(cross_risk_info.total_portfolio_value as int);
            let wanted = available_usdc_collateral(*strategy_risk_info) * (total_shares as nat);
            v@ * base <= wanted && wanted < (v@ + 1) * base
        }),
{
    let available = match get_available_usdc_collateral(strategy_risk_info) {
        Some(v) => v,
        None => {
            return None;
        },
    };
    let product = biguint_mul(&u128_digits(available), &digits_of_u64(total_shares));
    let portfolio = u128_digits(abs_i128(cross_risk_info.total_portfolio_value));
    let q = quotient_or_zero(&product, &portfolio);
    let r = digits_to_field(&q);
    proof {
        let base = abs_int(cross_risk_info.total_portfolio_value as int);
        if available_usdc_collateral(*strategy_risk_info) <= base && total_shares < p() {
            lemma_share_quotient_bound(available as nat, total_shares as nat, base);
            lemma_to_field_small(limbs_value(q@) as int);
            if base > 0 {
                lemma_div_or_zero_rounds_down(available as nat * (total_shares as nat), base);
            }
        }
    }
    Some(r)
}

} // verus!
