use vstd::prelude::*;
use vstd::arithmetic::div_mod::*;
use vstd::arithmetic::mul::*;
use num::Integer;
use crate::field::{GoldilocksField, p, to_field, lemma_to_field_small};
use crate::schnorr::trim_digits;
use crate::limbs::{
    radix, limbs_value, is_minimal, limb_capacity, lemma_limbs_value_push_zero,
    lemma_limbs_value_zero, lemma_limbs_value_bound, lemma_limbs_value_append,
    lemma_limb_capacity_pos, lemma_limb_capacity_monotone, lemma_limbs_value_update,
};
use crate::circuit::{
    Target, U32Target, BigUintTarget, BigIntTarget, SignTarget, PartialWitness, WitnessError,
    limbs_set, limbs_val, limbs_digits, value_at, extends, fresh_limbs, lemma_limbs_extend,
};
use crate::builder::{
    Builder, BuilderView, Relation, RelationView, BigUintDivRemGenerator, GeneratorView,
    DivRemCacheEntry, CacheEntryView, cache_lookup, relation_holds, builder_well_formed, is_sign_value, all_relations_hold,
    lemma_well_formed_extend, has_constant_relation,
};

verus! {

/// `num::BigUint` division: the digits of `a / b` and `a % b`, shortest form.
#[verifier::external_body]
pub(crate) fn biguint_div_rem(a: &Vec<u32>, b: &Vec<u32>) -> (r: (Vec<u32>, Vec<u32>))
    requires
        limbs_value(b@) > 0,
    ensures
        limbs_value(a@) == limbs_value(r.0@) * limbs_value(b@) + limbs_value(r.1@),
        limbs_value(r.1@) < limbs_value(b@),
        is_minimal(r.0@),
        is_minimal(r.1@),
{
    let (q, m) = num::BigUint::new(a.clone()).div_rem(&num::BigUint::new(b.clone()));
    (q.to_u32_digits(), m.to_u32_digits())
}

/// Appending zero digits does not change the value.
pub proof fn lemma_limbs_value_pad(s: Seq<u32>, k: nat)
    ensures
        limbs_value(s + Seq::new(k, |i: int| 0u32)) == limbs_value(s),
    decreases k,
{
    if k > 0 {
        let k1 = (k - 1) as nat;
        lemma_limbs_value_pad(s, k1);
        assert(s + Seq::new(k, |i: int| 0u32) =~= (s + Seq::new(k1, |i: int| 0u32)).push(0u32));
        lemma_limbs_value_push_zero(s + Seq::new(k1, |i: int| 0u32));
    } else {
        assert(s + Seq::new(k, |i: int| 0u32) =~= s);
    }
}

/// Shortest digits of a value below `2^(32 n)` number at most `n`.
pub proof fn lemma_minimal_len(s: Seq<u32>, n: nat)
    requires
        is_minimal(s),
        limbs_value(s) < limb_capacity(n),
    ensures
        s.len() <= n,
{
    if s.len() > n {
        let init = s.drop_last();
        assert(s =~= init + seq![s.last()]);
        lemma_limbs_value_append(init, seq![s.last()]);
        assert(seq![s.last()].drop_first() =~= Seq::<u32>::empty());
        assert(limbs_value(Seq::<u32>::empty()) == 0);
        assert(seq![s.last()][0] == s.last());
        assert(limbs_value(seq![s.last()]) == s.last() as nat + radix() * 0);
        lemma_limb_capacity_pos(init.len());
        lemma_mul_increases(s.last() as int, limb_capacity(init.len()) as int);
        lemma_mul_is_commutative(s.last() as int, limb_capacity(init.len()) as int);
        lemma_limb_capacity_monotone(n, init.len());
    }
}

/// Reads the digits held by limb wires.
fn get_biguint_target(w: &PartialWitness, t: &BigUintTarget) -> (r: Result<Vec<u32>, WitnessError>)
    ensures
        r is Ok <==> limbs_set(w@, t@),
        r matches Ok(d) ==> d@ == limbs_digits(w@, t@),
        r matches Err(e) ==> e == WitnessError::MissingValue || e == WitnessError::LimbOutOfRange,
{
    let mut digits: Vec<u32> = Vec::new();
    let mut i: usize = 0;
    while i < t.limbs.len()
        invariant
            0 <= i <= t@.len(),
            digits@.len() == i,
            forall|j: int|
                0 <= j < i ==> #[trigger] value_at(w@, t@[j].0.index as int) is Some && value_at(
                    w@,
                    t@[j].0.index as int,
                )->0 < radix(),
            forall|j: int|
                0 <= j < i ==> #[trigger] digits@[j] == value_at(w@, t@[j].0.index as int)->0 as u32,
        decreases t.limbs.len() - i,
    {
        match w.get_target(t.limbs[i].0) {
            None => {
                return Err(WitnessError::MissingValue);
            },
            Some(v) => {
                let x = v.to_canonical_u64();
                if x >= 4294967296u64 {
                    return Err(WitnessError::LimbOutOfRange);
                }
                digits.push(x as u32);
            },
        }
        i = i + 1;
    }
    assert(digits@ =~= limbs_digits(w@, t@));
    Ok(digits)
}

/// Writes `digits`, padded with zeros, into limb wires.
pub(crate) fn set_biguint_target(w: &mut PartialWitness, t: &BigUintTarget, digits: &Vec<u32>) -> (r: Result<
    (),
    WitnessError,
>)
    ensures
        extends(old(w)@, final(w)@),
        forall|k: int|
            (forall|j: int| 0 <= j < t@.len() ==> t@[j].0.index != k) ==> #[trigger] value_at(
                final(w)@,
                k,
            ) == value_at(old(w)@, k),
        r is Ok ==> limbs_set(final(w)@, t@) && limbs_val(final(w)@, t@) == limbs_value(digits@),
        (digits@.len() <= t@.len() && (forall|i: int|
            0 <= i < t@.len() ==> value_at(old(w)@, #[trigger] t@[i].0.index as int) is None) && (
        forall|i: int, j: int|
            0 <= i < j < t@.len() ==> #[trigger] t@[i].0.index != #[trigger] t@[j].0.index))
            ==> r is Ok,
{
    if digits.len() > t.limbs.len() {
        return Err(WitnessError::TooManyDigits);
    }
    let ghost padded = digits@ + Seq::new((t@.len() - digits@.len()) as nat, |i: int| 0u32);
    let mut i: usize = 0;
    while i < t.limbs.len()
        invariant
            0 <= i <= t@.len(),
            digits@.len() <= t@.len(),
            padded.len() == t@.len(),
            padded == digits@ + Seq::new((t@.len() - digits@.len()) as nat, |i: int| 0u32),
            extends(old(w)@, w@),
            forall|j: int|
                0 <= j < i ==> #[trigger] value_at(w@, t@[j].0.index as int) == Some(
                    padded[j] as nat,
                ),
            forall|k: int|
                (forall|j: int| 0 <= j < i ==> t@[j].0.index != k) ==> #[trigger] value_at(w@, k)
                    == value_at(old(w)@, k),
        decreases t.limbs.len() - i,
    {
        let d: u32 = if i < digits.len() { digits[i] } else { 0 };
        assert(d == padded[i as int]);
        let f = GoldilocksField::from_canonical_u32(d);
        let ghost before = w@;
        let res = w.set_target(t.limbs[i].0, f);
        match res {
            Ok(()) => {},
            Err(e) => {
                return Err(e);
            },
        }
        proof {
            assert forall|k: int| value_at(old(w)@, k) is Some implies value_at(w@, k) == value_at(
                old(w)@,
                k,
            ) by {
                assert(value_at(before, k) == value_at(old(w)@, k));
            }
        }
        i = i + 1;
    }
    proof {
        assert forall|j: int| 0 <= j < t@.len() implies #[trigger] value_at(
            w@,
            t@[j].0.index as int,
        ) is Some && value_at(w@, t@[j].0.index as int)->0 < radix() by {
            assert(value_at(w@, t@[j].0.index as int) == Some(padded[j] as nat));
        }
        assert(limbs_digits(w@, t@) =~= padded);
        lemma_limbs_value_pad(digits@, (t@.len() - digits@.len()) as nat);
    }
    Ok(())
}

/// The digits of one more than `d`'s value.
pub(crate) fn digits_plus_one(d: &Vec<u32>) -> (r: Vec<u32>)
    ensures
        limbs_value(r@) == limbs_value(d@) + 1,
{
    let mut r = d.clone();
    assert(r@ =~= d@);
    let mut i: usize = 0;
    while i < r.len() && r[i] == 0xffff_ffffu32
        invariant
            i <= r@.len(),
            r@.len() == d@.len(),
            limbs_value(r@) + limb_capacity(i as nat) == limbs_value(d@) + 1,
        decreases r.len() - i,
    {
        proof {
            lemma_limbs_value_update(r@, i as int, 0);
            let c = limb_capacity(i as nat) as int;
            assert(limb_capacity((i + 1) as nat) == radix() * limb_capacity(i as nat));
            assert(4294967295 * c + c == 4294967296 * c) by (nonlinear_arith);
        }
        r.set(i, 0);
        i = i + 1;
    }
    if i < r.len() {
        let v = r[i];
        proof {
            lemma_limbs_value_update(r@, i as int, (v + 1) as u32);
            let c = limb_capacity(i as nat) as int;
            assert((v + 1) * c == v * c + c) by (nonlinear_arith);
        }
        r.set(i, v + 1);
    } else {
        let ghost before = r@;
        proof {
            assert(i == before.len());
            lemma_limbs_value_append(r@, seq![1u32]);
            assert(seq![1u32].drop_first() =~= Seq::<u32>::empty());
            assert(limbs_value(seq![1u32]) == 1 + radix() * limbs_value(Seq::<u32>::empty()));
            assert(limb_capacity(i as nat) * 1 == limb_capacity(i as nat));
        }
        r.push(1);
        assert(r@ =~= before + seq![1u32]);
    }
    r
}

/// Whether digits spell zero.
pub(crate) fn digits_are_zero(d: &Vec<u32>) -> (r: bool)
    ensures
        r == (limbs_value(d@) == 0),
{
    proof {
        lemma_limbs_value_zero(d@);
    }
    let mut i: usize = 0;
    while i < d.len()
        invariant
            0 <= i <= d@.len(),
            forall|j: int| 0 <= j < i ==> d@[j] == 0,
        decreases d.len() - i,
    {
        if d[i] != 0 {
            proof {
                lemma_limbs_value_zero(d@);
                assert(!(forall|j: int| 0 <= j < d@.len() ==> d@[j] == 0));
            }
            return false;
        }
        i = i + 1;
    }
    true
}

/// Every limb wire is still unassigned.
pub open spec fn limbs_unset(w: Seq<Option<nat>>, ls: Seq<U32Target>) -> bool {
    forall|i: int| 0 <= i < ls.len() ==> value_at(w, #[trigger] ls[i].0.index as int) is None
}

/// No wire appears twice.
pub open spec fn distinct_wires(ls: Seq<U32Target>) -> bool {
    forall|i: int, j: int| 0 <= i < j < ls.len() ==> #[trigger] ls[i].0.index != #[trigger] ls[j].0.index
}

/// The inputs of the generator are assigned, its outputs are fresh, and the quotient and
/// remainder fit the output limbs.
pub open spec fn generator_ready(w: Seq<Option<nat>>, g: GeneratorView) -> bool {
    &&& limbs_set(w, g.a)
    &&& limbs_set(w, g.b)
    &&& limbs_unset(w, g.div)
    &&& limbs_unset(w, g.rem)
    &&& distinct_wires(g.div + g.rem)
    &&& limbs_val(w, g.b) != 0 ==> limbs_val(w, g.a) / limbs_val(w, g.b) < limb_capacity(g.div.len())
        && limbs_val(w, g.b) <= limb_capacity(g.rem.len())
}

impl BigUintDivRemGenerator {
    /// The wires whose values the generator reads: the limbs of `a`, then those of `b`.
    pub fn dependencies(&self) -> (r: Vec<Target>)
        ensures
            r@.len() == self.a@.len() + self.b@.len(),
            forall|i: int| 0 <= i < self.a@.len() ==> #[trigger] r@[i] == self.a@[i].0,
            forall|i: int|
                0 <= i < self.b@.len() ==> #[trigger] r@[self.a@.len() + i] == self.b@[i].0,
    {
        let mut r: Vec<Target> = Vec::new();
        let mut i: usize = 0;
        while i < self.a.limbs.len()
            invariant
                0 <= i <= self.a@.len(),
                r@.len() == i,
                forall|j: int| 0 <= j < i ==> #[trigger] r@[j] == self.a@[j].0,
            decreases self.a.limbs.len() - i,
        {
            r.push(self.a.limbs[i].0);
            i = i + 1;
        }
        let mut k: usize = 0;
        while k < self.b.limbs.len()
            invariant
                0 <= k <= self.b@.len(),
                r@.len() == self.a@.len() + k,
                forall|j: int| 0 <= j < self.a@.len() ==> #[trigger] r@[j] == self.a@[j].0,
                forall|j: int| 0 <= j < k ==> #[trigger] r@[self.a@.len() + j] == self.b@[j].0,
            decreases self.b.limbs.len() - k,
        {
            r.push(self.b.limbs[k].0);
            k = k + 1;
        }
        r
    }

    /// Computes the quotient and remainder of the values held by `a` and `b` and writes them
    /// into `div` and `rem`; a zero divisor gives zero for both.
    pub fn run_once(&self, w: &mut PartialWitness) -> (r: Result<(), WitnessError>)
        ensures
            extends(old(w)@, final(w)@),
            r is Ok ==> relation_holds(
                RelationView::DivRem { a: self.a@, b: self.b@, div: self.div@, rem: self.rem@ },
                final(w)@,
            ),
            generator_ready(old(w)@, self@) ==> r is Ok,
            forall|k: int|
                (forall|j: int| 0 <= j < self.div@.len() ==> self.div@[j].0.index != k) && (forall|
                    j: int,
                |
                    0 <= j < self.rem@.len() ==> self.rem@[j].0.index != k) ==> #[trigger] value_at(
                    final(w)@,
                    k,
                ) == value_at(old(w)@, k),
    {
        let a = match get_biguint_target(w, &self.a) {
            Ok(d) => d,
            Err(e) => {
                return Err(e);
            },
        };
        let b = match get_biguint_target(w, &self.b) {
            Ok(d) => d,
            Err(e) => {
                return Err(e);
            },
        };
        let ghost w0 = w@;
        let (q, m) = if digits_are_zero(&b) {
            (Vec::new(), Vec::new())
        } else {
            biguint_div_rem(&a, &b)
        };
        proof {
            if limbs_value(b@) == 0 {
                assert(q@ =~= Seq::<u32>::empty());
                assert(m@ =~= Seq::<u32>::empty());
            }
        }
        proof {
            if generator_ready(w0, self@) && limbs_value(b@) != 0 {
                lemma_fundamental_div_mod_converse(
                    limbs_value(a@) as int,
                    limbs_value(b@) as int,
                    limbs_value(q@) as int,
                    limbs_value(m@) as int,
                );
                lemma_minimal_len(q@, self.div@.len());
                lemma_minimal_len(m@, self.rem@.len());
            }
            if generator_ready(w0, self@) {
                let both = self.div@ + self.rem@;
                assert forall|i: int, j: int|
                    0 <= i < j < self.div@.len() implies #[trigger] self.div@[i].0.index
                    != #[trigger] self.div@[j].0.index by {
                    assert(both[i] == self.div@[i]);
                    assert(both[j] == self.div@[j]);
                }
                assert forall|i: int, j: int|
                    0 <= i < j < self.rem@.len() implies #[trigger] self.rem@[i].0.index
                    != #[trigger] self.rem@[j].0.index by {
                    assert(both[self.div@.len() + i] == self.rem@[i]);
                    assert(both[self.div@.len() + j] == self.rem@[j]);
                }
            }
        }
        match set_biguint_target(w, &self.div, &q) {
            Ok(()) => {},
            Err(e) => {
                return Err(e);
            },
        }
        let ghost w1 = w@;
        proof {
            if generator_ready(w0, self@) {
                assert forall|i: int| 0 <= i < self.rem@.len() implies value_at(
                    w1,
                    #[trigger] self.rem@[i].0.index as int,
                ) is None by {
                    let k = self.rem@[i].0.index as int;
                    assert forall|j: int| 0 <= j < self.div@.len() implies self.div@[j].0.index != k by {
                        let both = self.div@ + self.rem@;
                        assert(both[j] == self.div@[j]);
                        assert(both[self.div@.len() + i] == self.rem@[i]);
                        assert(both[j].0.index != both[self.div@.len() + i].0.index);
                    }
                    assert(value_at(w1, k) == value_at(w0, k));
                }
            }
        }
        let res = set_biguint_target(w, &self.rem, &m);
        proof {
            assert forall|k: int|
                (forall|j: int| 0 <= j < self.div@.len() ==> self.div@[j].0.index != k) && (forall|
                    j: int,
                |
                    0 <= j < self.rem@.len() ==> self.rem@[j].0.index != k) implies #[trigger] value_at(
                    w@,
                    k,
                ) == value_at(w0, k) by {
                assert(value_at(w@, k) == value_at(w1, k));
                assert(value_at(w1, k) == value_at(w0, k));
            }
        }
        match res {
            Ok(()) => {},
            Err(e) => {
                return Err(e);
            },
        }
        proof {
            lemma_limbs_extend(w0, w@, self.a@);
            lemma_limbs_extend(w0, w@, self.b@);
            lemma_limbs_extend(w1, w@, self.div@);
        }
        Ok(())
    }

    /// The generator's name, the same for every division.
    pub fn id(&self) -> (r: &'static str)
        ensures
            r@ == "BigUintDivRemGenerator"@,
    {
        "BigUintDivRemGenerator"
    }
}

/// Fills the rounded-up quotient of a ceiling division once `a`, `b` and the quotient and
/// remainder wires hold values: `div` plus one when `rem` is nonzero, and `a` itself for a
/// zero divisor. Only the wires of `out` are written.
pub fn fill_ceil_div(
    w: &mut PartialWitness,
    a: &BigUintTarget,
    b: &BigUintTarget,
    div: &BigUintTarget,
    rem: &BigUintTarget,
    out: &BigUintTarget,
) -> (r: Result<(), WitnessError>)
    ensures
        extends(old(w)@, final(w)@),
        forall|k: int|
            (forall|j: int| 0 <= j < out@.len() ==> out@[j].0.index != k) ==> #[trigger] value_at(
                final(w)@,
                k,
            ) == value_at(old(w)@, k),
        r is Ok ==> relation_holds(
            RelationView::CeilDiv { a: a@, b: b@, div: div@, rem: rem@, out: out@ },
            final(w)@,
        ),
        limbs_set(old(w)@, a@) && limbs_set(old(w)@, b@) && limbs_set(old(w)@, div@) && limbs_set(
            old(w)@,
            rem@,
        ) && limbs_unset(old(w)@, out@) && distinct_wires(out@) && ceil_div_out(
            limbs_val(old(w)@, a@),
            limbs_val(old(w)@, b@),
            limbs_val(old(w)@, div@),
            limbs_val(old(w)@, rem@),
        ) < limb_capacity(out@.len()) ==> r is Ok,
{
    let da = match get_biguint_target(w, a) {
        Ok(d) => d,
        Err(e) => {
            return Err(e);
        },
    };
    let db = match get_biguint_target(w, b) {
        Ok(d) => d,
        Err(e) => {
            return Err(e);
        },
    };
    let dd = match get_biguint_target(w, div) {
        Ok(d) => d,
        Err(e) => {
            return Err(e);
        },
    };
    let dr = match get_biguint_target(w, rem) {
        Ok(d) => d,
        Err(e) => {
            return Err(e);
        },
    };
    let ghost w0 = w@;
    let value = if digits_are_zero(&db) {
        da
    } else if digits_are_zero(&dr) {
        dd
    } else {
        digits_plus_one(&dd)
    };
    let digits = trim_digits(value);
    proof {
        if limbs_unset(w0, out@) && distinct_wires(out@) && ceil_div_out(
            limbs_val(w0, a@),
            limbs_val(w0, b@),
            limbs_val(w0, div@),
            limbs_val(w0, rem@),
        ) < limb_capacity(out@.len()) {
            lemma_minimal_len(digits@, out@.len());
        }
    }
    let res = set_biguint_target(w, out, &digits);
    match res {
        Ok(()) => {},
        Err(e) => {
            return Err(e);
        },
    }
    proof {
        lemma_limbs_extend(w0, w@, a@);
        lemma_limbs_extend(w0, w@, b@);
        lemma_limbs_extend(w0, w@, div@);
        lemma_limbs_extend(w0, w@, rem@);
    }
    Ok(())
}

/// The rounded-up quotient a ceiling division asks of its output: `a` for a zero divisor,
/// else the quotient plus one when the remainder is nonzero.
pub open spec fn ceil_div_out(a: nat, b: nat, div: nat, rem: nat) -> nat {
    if b == 0 {
        a
    } else if rem == 0 {
        div
    } else {
        div + 1
    }
}

/// Fills the sign of a signed quotient once the quotient limbs and the dividend's sign wire
/// hold values: zero for a zero quotient, otherwise the dividend's sign. Fails with
/// `InvalidSign` when the dividend's sign wire holds none of 0, 1 and `p - 1`. Only `out` is
/// written.
pub fn fill_quotient_sign(
    w: &mut PartialWitness,
    quotient: &BigUintTarget,
    dividend_sign: Target,
    out: Target,
) -> (r: Result<(), WitnessError>)
    ensures
        extends(old(w)@, final(w)@),
        forall|k: int| k != out.index ==> #[trigger] value_at(final(w)@, k) == value_at(old(w)@, k),
        r is Ok ==> relation_holds(
            RelationView::QuotientSign { quotient: quotient@, dividend_sign, out },
            final(w)@,
        ),
        limbs_set(old(w)@, quotient@) && value_at(old(w)@, dividend_sign.index as int) is Some
            && is_sign_value(value_at(old(w)@, dividend_sign.index as int)->0) && value_at(
            old(w)@,
            out.index as int,
        ) is None ==> r is Ok,
        r == Err::<(), WitnessError>(WitnessError::InvalidSign) ==> value_at(
            old(w)@,
            dividend_sign.index as int,
        ) is Some && !is_sign_value(value_at(old(w)@, dividend_sign.index as int)->0),
{
    let dq = match get_biguint_target(w, quotient) {
        Ok(d) => d,
        Err(e) => {
            return Err(e);
        },
    };
    let s = match w.get_target(dividend_sign) {
        Some(v) => v,
        None => {
            return Err(WitnessError::MissingValue);
        },
    };
    let sv = s.to_canonical_u64();
    if !(sv == 0 || sv == 1 || sv == 18446744069414584320u64) {
        return Err(WitnessError::InvalidSign);
    }
    let ghost w0 = w@;
    let value = if digits_are_zero(&dq) { GoldilocksField::zero() } else { s };
    proof {
        if sv == 18446744069414584320u64 {
            assert(to_field(-1) == p() - 1) by {
                lemma_fundamental_div_mod_converse(-1, p() as int, -1, (p() - 1) as int);
            }
        }
        lemma_to_field_small(0);
        lemma_to_field_small(1);
        lemma_to_field_small(sv as int);
    }
    match w.set_target(out, value) {
        Ok(()) => {},
        Err(e) => {
            return Err(e);
        },
    }
    proof {
        lemma_limbs_extend(w0, w@, quotient@);
        assert(value_at(w@, dividend_sign.index as int) == Some(sv as nat));
    }
    Ok(())
}

/// The builder state and the quotient and remainder wires after asking for `a / b` with a
/// quotient of `n` limbs: a remembered division is reused, otherwise fresh wires are
/// numbered, and the division constraint, its generator and the cache entry are recorded.
pub open spec fn spec_div_rem(s: BuilderView, a: Seq<U32Target>, b: Seq<U32Target>, n: nat) -> (
    BuilderView,
    Seq<U32Target>,
    Seq<U32Target>,
) {
    match cache_lookup(s.cache, a, b, n) {
        Some(found) => (s, found.0, found.1),
        None => {
            let div = fresh_limbs(s.num_targets, n);
            let rem = fresh_limbs(s.num_targets + n, b.len());
            (
                BuilderView {
                    num_targets: s.num_targets + n + b.len(),
                    public_inputs: s.public_inputs,
                    constants: s.constants,
                    relations: s.relations.push(RelationView::DivRem { a, b, div, rem }),
                    generators: s.generators.push(GeneratorView { a, b, div, rem }),
                    cache: s.cache.push(
                        CacheEntryView { a, b, quotient_num_limbs: n, div, rem },
                    ),
                },
                div,
                rem,
            )
        },
    }
}

/// Looking up in a cache with one more entry at the end.
pub proof fn lemma_cache_lookup_push(
    c: Seq<CacheEntryView>,
    e: CacheEntryView,
    a: Seq<U32Target>,
    b: Seq<U32Target>,
    n: nat,
)
    ensures
        cache_lookup(c.push(e), a, b, n) == (if cache_lookup(c, a, b, n) is Some {
            cache_lookup(c, a, b, n)
        } else if e.a == a && e.b == b && e.quotient_num_limbs == n {
            Some((e.div, e.rem))
        } else {
            None
        }),
    decreases c.len(),
{
    if c.len() == 0 {
        assert(c.push(e)[0] == e);
        assert(c.push(e).drop_first() =~= Seq::<CacheEntryView>::empty());
        assert(cache_lookup(Seq::<CacheEntryView>::empty(), a, b, n) is None);
        assert(cache_lookup(c, a, b, n) is None);
    } else {
        assert(c.push(e)[0] == c[0]);
        assert(c.push(e).drop_first() =~= c.drop_first().push(e));
        lemma_cache_lookup_push(c.drop_first(), e, a, b, n);
    }
}

/// A remembered division comes from some entry of the cache.
proof fn lemma_cache_lookup_entry(c: Seq<CacheEntryView>, a: Seq<U32Target>, b: Seq<U32Target>, n: nat) -> (i: int)
    requires
        cache_lookup(c, a, b, n) is Some,
    ensures
        0 <= i < c.len(),
        c[i].a == a && c[i].b == b && c[i].quotient_num_limbs == n,
        cache_lookup(c, a, b, n) == Some((c[i].div, c[i].rem)),
    decreases c.len(),
{
    if c[0].a == a && c[0].b == b && c[0].quotient_num_limbs == n {
        0
    } else {
        let j = lemma_cache_lookup_entry(c.drop_first(), a, b, n);
        j + 1
    }
}

/// In a well-formed builder, asking for a division keeps it well formed, and the wires it
/// hands back (fresh or remembered) are those of a recorded division constraint and of a
/// recorded witness generator.
pub proof fn lemma_div_rem_recorded(s: BuilderView, a: Seq<U32Target>, b: Seq<U32Target>, n: nat)
    requires
        builder_well_formed(s),
    ensures
        ({
            let (s1, div, rem) = spec_div_rem(s, a, b, n);
            &&& builder_well_formed(s1)
            &&& s1.relations.contains(RelationView::DivRem { a, b, div, rem })
            &&& s1.generators.contains(GeneratorView { a, b, div, rem })
            &&& div.len() == n
            &&& rem.len() == b.len()
        }),
{
    let (s1, div, rem) = spec_div_rem(s, a, b, n);
    match cache_lookup(s.cache, a, b, n) {
        Some(found) => {
            let i = lemma_cache_lookup_entry(s.cache, a, b, n);
            let e = s.cache[i];
            assert(s.relations.contains(RelationView::DivRem { a: e.a, b: e.b, div: e.div, rem: e.rem }));
            assert(s.generators.contains(GeneratorView { a: e.a, b: e.b, div: e.div, rem: e.rem }));
        },
        None => {
            let rel = RelationView::DivRem { a, b, div, rem };
            let gen = GeneratorView { a, b, div, rem };
            assert(s1.relations[s.relations.len() as int] == rel);
            assert(s1.generators[s.generators.len() as int] == gen);
            let mid = BuilderView { cache: s.cache, ..s1 };
            lemma_well_formed_extend(s, mid);
            assert forall|k: int| 0 <= k < s1.constants.len() implies #[trigger] has_constant_relation(
                s1.relations,
                s1.constants[k].1,
                s1.constants[k].0 as nat,
            ) by {
                assert(has_constant_relation(mid.relations, mid.constants[k].1, mid.constants[k].0 as nat));
            }
            assert forall|i: int| 0 <= i < s1.cache.len() implies {
                let e = #[trigger] s1.cache[i];
                &&& s1.relations.contains(RelationView::DivRem { a: e.a, b: e.b, div: e.div, rem: e.rem })
                &&& s1.generators.contains(GeneratorView { a: e.a, b: e.b, div: e.div, rem: e.rem })
                &&& e.div.len() == e.quotient_num_limbs
                &&& e.rem.len() == e.b.len()
            } by {
                if i < s.cache.len() {
                    assert(s1.cache[i] == mid.cache[i]);
                }
            }
        },
    }
}

/// Asking twice for the same division gives the same wires and records nothing more.
pub proof fn lemma_div_rem_cached(s: BuilderView, a: Seq<U32Target>, b: Seq<U32Target>, n: nat)
    ensures
        ({
            let first = spec_div_rem(s, a, b, n);
            let second = spec_div_rem(first.0, a, b, n);
            second.0 == first.0 && second.1 == first.1 && second.2 == first.2
        }),
{
    let first = spec_div_rem(s, a, b, n);
    if cache_lookup(s.cache, a, b, n) is None {
        lemma_cache_lookup_push(
            s.cache,
            CacheEntryView { a, b, quotient_num_limbs: n, div: first.1, rem: first.2 },
            a,
            b,
            n,
        );
    }
}

/// A satisfied division constraint pins the quotient and remainder down: they are
/// `a / b` and `a % b`, or both zero for a zero divisor.
pub proof fn lemma_div_rem_relation_unique(
    w: Seq<Option<nat>>,
    a: Seq<U32Target>,
    b: Seq<U32Target>,
    div: Seq<U32Target>,
    rem: Seq<U32Target>,
)
    requires
        relation_holds(RelationView::DivRem { a, b, div, rem }, w),
    ensures
        limbs_val(w, b) != 0 ==> limbs_val(w, div) == limbs_val(w, a) / limbs_val(w, b)
            && limbs_val(w, rem) == limbs_val(w, a) % limbs_val(w, b),
        limbs_val(w, b) == 0 ==> limbs_val(w, div) == 0 && limbs_val(w, rem) == 0,
{
    if limbs_val(w, b) != 0 {
        lemma_fundamental_div_mod_converse(
            limbs_val(w, a) as int,
            limbs_val(w, b) as int,
            limbs_val(w, div) as int,
            limbs_val(w, rem) as int,
        );
    }
}

/// A quotient that does not fit the quotient limbs leaves the division constraint without
/// any solution: whenever it holds, `a / b` fits.
pub proof fn lemma_div_rem_quotient_fits(
    w: Seq<Option<nat>>,
    a: Seq<U32Target>,
    b: Seq<U32Target>,
    div: Seq<U32Target>,
    rem: Seq<U32Target>,
)
    requires
        relation_holds(RelationView::DivRem { a, b, div, rem }, w),
        limbs_val(w, b) != 0,
    ensures
        limbs_val(w, a) / limbs_val(w, b) < limb_capacity(div.len()),
{
    lemma_div_rem_relation_unique(w, a, b, div, rem);
    assert(limbs_digits(w, div).len() == div.len());
    lemma_limbs_value_bound(limbs_digits(w, div));
}

/// In a well-formed builder, asking for `a / b` with a `k`-limb quotient leaves constraints
/// that no witness satisfies unless the quotient fits `k` limbs (or the divisor is zero).
pub proof fn lemma_trimmed_quotient_bound(
    s: BuilderView,
    w: Seq<Option<nat>>,
    a: Seq<U32Target>,
    b: Seq<U32Target>,
    k: nat,
)
    requires
        builder_well_formed(s),
        all_relations_hold(spec_div_rem(s, a, b, k).0, w),
        limbs_val(w, b) != 0,
    ensures
        limbs_val(w, a) / limbs_val(w, b) < limb_capacity(k),
{
    let (s1, div, rem) = spec_div_rem(s, a, b, k);
    lemma_div_rem_recorded(s, a, b, k);
    let rel = RelationView::DivRem { a, b, div, rem };
    let j = choose|j: int| 0 <= j < s1.relations.len() && s1.relations[j] == rel;
    assert(relation_holds(s1.relations[j], w));
    lemma_div_rem_quotient_fits(w, a, b, div, rem);
}

/// With both constraints satisfied, the rounded-up quotient is `ceil(a / b)`, and `a` for a
/// zero divisor.
pub proof fn lemma_ceil_div_value(
    w: Seq<Option<nat>>,
    a: Seq<U32Target>,
    b: Seq<U32Target>,
    div: Seq<U32Target>,
    rem: Seq<U32Target>,
    out: Seq<U32Target>,
)
    requires
        relation_holds(RelationView::DivRem { a, b, div, rem }, w),
        relation_holds(RelationView::CeilDiv { a, b, div, rem, out }, w),
    ensures
        limbs_val(w, b) != 0 ==> limbs_val(w, out) == (limbs_val(w, a) + limbs_val(w, b) - 1)
            / (limbs_val(w, b) as int),
        limbs_val(w, b) == 0 ==> limbs_val(w, out) == limbs_val(w, a),
{
    let va = limbs_val(w, a) as int;
    let vb = limbs_val(w, b) as int;
    let vd = limbs_val(w, div) as int;
    let vr = limbs_val(w, rem) as int;
    if vb != 0 {
        if vr == 0 {
            lemma_fundamental_div_mod_converse(va + vb - 1, vb, vd, vb - 1);
        } else {
            assert(va + vb - 1 == (vd + 1) * vb + (vr - 1)) by {
                lemma_mul_is_distributive_add_other_way(vb, vd, 1);
            }
            lemma_fundamental_div_mod_converse(va + vb - 1, vb, vd + 1, vr - 1);
        }
    }
}

/// Big-integer division gadgets.
pub trait CircuitBuilderBiguintDivRem {
    /// Whether `n` more wires can still be numbered.
    spec fn has_room(&self, n: nat) -> bool;

    /// The quotient and remainder of `a` by `b`; both are zero when `b` is zero.
    fn div_rem_biguint(&mut self, a: &BigUintTarget, b: &BigUintTarget) -> (BigUintTarget, BigUintTarget)
        requires
            old(self).has_room(a@.len() + b@.len()),
    ;

    /// Like [`Self::div_rem_biguint`], with a quotient of `quotient_num_limbs` limbs: the
    /// constraints have no solution when the quotient does not fit.
    fn div_rem_biguint_trimmed(
        &mut self,
        a: &BigUintTarget,
        b: &BigUintTarget,
        quotient_num_limbs: usize,
    ) -> (BigUintTarget, BigUintTarget)
        requires
            quotient_num_limbs <= a@.len(),
            old(self).has_room(quotient_num_limbs as nat + b@.len()),
    ;

    /// The quotient of `a` by `b`; zero when `b` is zero.
    fn div_biguint(&mut self, a: &BigUintTarget, b: &BigUintTarget) -> BigUintTarget
        requires
            old(self).has_room(a@.len() + b@.len()),
    ;

    /// The quotient of `a` by `b` with `quotient_num_limbs` limbs.
    fn div_biguint_trimmed(
        &mut self,
        a: &BigUintTarget,
        b: &BigUintTarget,
        quotient_num_limbs: usize,
    ) -> BigUintTarget
        requires
            quotient_num_limbs <= a@.len(),
            old(self).has_room(quotient_num_limbs as nat + b@.len()),
    ;

    /// The remainder of `a` by `b`; zero when `b` is zero.
    fn rem_biguint(&mut self, a: &BigUintTarget, b: &BigUintTarget) -> BigUintTarget
        requires
            old(self).has_room(a@.len() + b@.len()),
    ;

    /// The quotient of `a` by `b` rounded up; `a` when `b` is zero.
    fn ceil_div_biguint(&mut self, a: &BigUintTarget, b: &BigUintTarget) -> BigUintTarget
        requires
            old(self).has_room(2 * a@.len() + b@.len() + 1),
    ;

    /// The quotient of the signed `a` by `b`, carrying the sign of `a`; zero when `b` is zero.
    fn div_bigint_by_biguint(&mut self, a: &BigIntTarget, b: &BigUintTarget) -> BigIntTarget
        requires
            old(self).has_room(a.abs@.len() + b@.len() + 1),
    ;

    /// Like [`Self::div_bigint_by_biguint`], with a quotient of `quotient_num_limbs` limbs.
    fn div_bigint_by_biguint_trimmed(
        &mut self,
        a: &BigIntTarget,
        b: &BigUintTarget,
        quotient_num_limbs: usize,
    ) -> BigIntTarget
        requires
            quotient_num_limbs <= a.abs@.len(),
            old(self).has_room(quotient_num_limbs as nat + b@.len() + 1),
    ;
}

impl Builder {
    /// The remembered division for `(a, b, n)`, if any.
    fn lookup_div_rem(&self, a: &BigUintTarget, b: &BigUintTarget, n: usize) -> (r: Option<
        (BigUintTarget, BigUintTarget),
    >)
        ensures
            match cache_lookup(self@.cache, a@, b@, n as nat) {
                Some(f) => r matches Some(x) && x.0@ == f.0 && x.1@ == f.1,
                None => r is None,
            },
    {
        let ghost c = self@.cache;
        assert(c.subrange(0, c.len() as int) =~= c);
        let mut i: usize = 0;
        while i < self.div_rem_biguint_cache.len()
            invariant
                0 <= i <= c.len(),
                c == self@.cache,
                cache_lookup(c, a@, b@, n as nat) == cache_lookup(
                    c.subrange(i as int, c.len() as int),
                    a@,
                    b@,
                    n as nat,
                ),
            decreases self.div_rem_biguint_cache.len() - i,
        {
            let e = &self.div_rem_biguint_cache[i];
            let ghost sub = c.subrange(i as int, c.len() as int);
            assert(sub[0] == e@);
            if e.a.same_wires(a) && e.b.same_wires(b) && e.quotient_num_limbs == n {
                return Some((e.div.clone(), e.rem.clone()));
            }
            assert(sub.drop_first() =~= c.subrange(i + 1, c.len() as int));
            i = i + 1;
        }
        assert(c.subrange(i as int, c.len() as int) =~= Seq::<CacheEntryView>::empty());
        None
    }
}

impl CircuitBuilderBiguintDivRem for Builder {
    open spec fn has_room(&self, n: nat) -> bool {
        self.num_targets + n <= usize::MAX
    }

    fn div_rem_biguint(&mut self, a: &BigUintTarget, b: &BigUintTarget) -> (r: (BigUintTarget, BigUintTarget))
        ensures
            final(self)@ =~= spec_div_rem(old(self)@, a@, b@, a@.len()).0,
            r.0@ == spec_div_rem(old(self)@, a@, b@, a@.len()).1,
            r.1@ == spec_div_rem(old(self)@, a@, b@, a@.len()).2,
            builder_well_formed(old(self)@) ==> builder_well_formed(final(self)@),
            builder_well_formed(old(self)@) ==> final(self)@.relations.contains(
                RelationView::DivRem { a: a@, b: b@, div: r.0@, rem: r.1@ },
            ) && final(self)@.generators.contains(GeneratorView { a: a@, b: b@, div: r.0@, rem: r.1@ }),
            builder_well_formed(old(self)@) ==> r.0@.len() == a@.len() && r.1@.len() == b@.len(),
    {
        let n = a.num_limbs();
        self.div_rem_biguint_trimmed(a, b, n)
    }

    fn div_rem_biguint_trimmed(
        &mut self,
        a: &BigUintTarget,
        b: &BigUintTarget,
        quotient_num_limbs: usize,
    ) -> (r: (BigUintTarget, BigUintTarget))
        ensures
            final(self)@ =~= spec_div_rem(old(self)@, a@, b@, quotient_num_limbs as nat).0,
            r.0@ == spec_div_rem(old(self)@, a@, b@, quotient_num_limbs as nat).1,
            r.1@ == spec_div_rem(old(self)@, a@, b@, quotient_num_limbs as nat).2,
            builder_well_formed(old(self)@) ==> builder_well_formed(final(self)@),
            builder_well_formed(old(self)@) ==> final(self)@.relations.contains(
                RelationView::DivRem { a: a@, b: b@, div: r.0@, rem: r.1@ },
            ) && final(self)@.generators.contains(GeneratorView { a: a@, b: b@, div: r.0@, rem: r.1@ }),
            builder_well_formed(old(self)@) ==> r.0@.len() == quotient_num_limbs && r.1@.len() == b@.len(),
    {
        proof {
            if builder_well_formed(old(self)@) {
                lemma_div_rem_recorded(old(self)@, a@, b@, quotient_num_limbs as nat);
            }
        }
        match self.lookup_div_rem(a, b, quotient_num_limbs) {
            Some(found) => {
                return found;
            },
            None => {},
        }
        let ghost s = self@;
        let div = self.add_virtual_biguint_target_safe(quotient_num_limbs);
        let rem = self.add_virtual_biguint_target_safe(b.num_limbs());
        self.generators.push(
            BigUintDivRemGenerator { a: a.clone(), b: b.clone(), div: div.clone(), rem: rem.clone() },
        );
        self.relations.push(
            Relation::DivRem { a: a.clone(), b: b.clone(), div: div.clone(), rem: rem.clone() },
        );
        self.div_rem_biguint_cache.push(
            DivRemCacheEntry {
                a: a.clone(),
                b: b.clone(),
                quotient_num_limbs,
                div: div.clone(),
                rem: rem.clone(),
            },
        );
        proof {
            let t = spec_div_rem(s, a@, b@, quotient_num_limbs as nat);
            assert(self@.relations =~= t.0.relations);
            assert(self@.generators =~= t.0.generators);
            assert(self@.cache =~= t.0.cache);
        }
        (div, rem)
    }

    fn div_biguint(&mut self, a: &BigUintTarget, b: &BigUintTarget) -> (r: BigUintTarget)
        ensures
            final(self)@ =~= spec_div_rem(old(self)@, a@, b@, a@.len()).0,
            r@ == spec_div_rem(old(self)@, a@, b@, a@.len()).1,
            builder_well_formed(old(self)@) ==> builder_well_formed(final(self)@),
            builder_well_formed(old(self)@) ==> r@.len() == a@.len(),
    {
        let (div, _rem) = self.div_rem_biguint(a, b);
        div
    }

    fn div_biguint_trimmed(
        &mut self,
        a: &BigUintTarget,
        b: &BigUintTarget,
        quotient_num_limbs: usize,
    ) -> (r: BigUintTarget)
        ensures
            final(self)@ =~= spec_div_rem(old(self)@, a@, b@, quotient_num_limbs as nat).0,
            r@ == spec_div_rem(old(self)@, a@, b@, quotient_num_limbs as nat).1,
            builder_well_formed(old(self)@) ==> builder_well_formed(final(self)@),
            builder_well_formed(old(self)@) ==> r@.len() == quotient_num_limbs,
    {
        let (div, _rem) = self.div_rem_biguint_trimmed(a, b, quotient_num_limbs);
        div
    }

    fn rem_biguint(&mut self, a: &BigUintTarget, b: &BigUintTarget) -> (r: BigUintTarget)
        ensures
            final(self)@ =~= spec_div_rem(old(self)@, a@, b@, a@.len()).0,
            r@ == spec_div_rem(old(self)@, a@, b@, a@.len()).2,
            builder_well_formed(old(self)@) ==> builder_well_formed(final(self)@),
            builder_well_formed(old(self)@) ==> r@.len() == b@.len(),
    {
        let (_div, rem) = self.div_rem_biguint(a, b);
        rem
    }

    fn ceil_div_biguint(&mut self, a: &BigUintTarget, b: &BigUintTarget) -> (r: BigUintTarget)
        ensures
            ({
                let (s1, d, m) = spec_div_rem(old(self)@, a@, b@, a@.len());
                &&& r@ == fresh_limbs(s1.num_targets, a@.len() + 1)
                &&& final(self)@ =~= (BuilderView {
                    num_targets: s1.num_targets + a@.len() + 1,
                    relations: s1.relations.push(
                        RelationView::CeilDiv { a: a@, b: b@, div: d, rem: m, out: r@ },
                    ),
                    ..s1
                })
            }),
            builder_well_formed(old(self)@) ==> builder_well_formed(final(self)@),
    {
        let (div, rem) = self.div_rem_biguint(a, b);
        let ghost s1 = self@;
        proof {
            let t = spec_div_rem(old(self)@, a@, b@, a@.len());
            if cache_lookup(old(self)@.cache, a@, b@, a@.len()) is None {
                assert(t.0.num_targets == old(self)@.num_targets + a@.len() + b@.len());
            }
        }
        let out = self.add_virtual_biguint_target_safe(a.num_limbs() + 1);
        self.relations.push(
            Relation::CeilDiv { a: a.clone(), b: b.clone(), div, rem, out: out.clone() },
        );
        proof {
            let (s1x, d, m) = spec_div_rem(old(self)@, a@, b@, a@.len());
            assert(self@.relations =~= s1x.relations.push(
                RelationView::CeilDiv { a: a@, b: b@, div: d, rem: m, out: out@ },
            ));
            if builder_well_formed(old(self)@) {
                lemma_div_rem_recorded(old(self)@, a@, b@, a@.len());
                lemma_well_formed_extend(s1x, self@);
            }
        }
        out
    }

    fn div_bigint_by_biguint(&mut self, a: &BigIntTarget, b: &BigUintTarget) -> (r: BigIntTarget)
        ensures
            ({
                let (s1, d, m) = spec_div_rem(old(self)@, a.abs@, b@, a.abs@.len());
                &&& r.abs@ == d
                &&& r.sign.target.index == s1.num_targets
                &&& final(self)@ =~= (BuilderView {
                    num_targets: s1.num_targets + 1,
                    relations: s1.relations.push(
                        RelationView::QuotientSign {
                            quotient: d,
                            dividend_sign: a.sign.target,
                            out: r.sign.target,
                        },
                    ),
                    ..s1
                })
            }),
            builder_well_formed(old(self)@) ==> builder_well_formed(final(self)@),
            builder_well_formed(old(self)@) ==> r.abs@.len() == a.abs@.len(),
    {
        let n = a.abs.num_limbs();
        self.div_bigint_by_biguint_trimmed(a, b, n)
    }

    fn div_bigint_by_biguint_trimmed(
        &mut self,
        a: &BigIntTarget,
        b: &BigUintTarget,
        quotient_num_limbs: usize,
    ) -> (r: BigIntTarget)
        ensures
            ({
                let (s1, d, m) = spec_div_rem(old(self)@, a.abs@, b@, quotient_num_limbs as nat);
                &&& r.abs@ == d
                &&& r.sign.target.index == s1.num_targets
                &&& final(self)@ =~= (BuilderView {
                    num_targets: s1.num_targets + 1,
                    relations: s1.relations.push(
                        RelationView::QuotientSign {
                            quotient: d,
                            dividend_sign: a.sign.target,
                            out: r.sign.target,
                        },
                    ),
                    ..s1
                })
            }),
            builder_well_formed(old(self)@) ==> builder_well_formed(final(self)@),
            builder_well_formed(old(self)@) ==> r.abs@.len() == quotient_num_limbs,
    {
        let div_abs = self.div_biguint_trimmed(&a.abs, b, quotient_num_limbs);
        let sign = self.add_virtual_target();
        let quotient = div_abs.clone();
        self.relations.push(
            Relation::QuotientSign { quotient, dividend_sign: a.sign.target, out: sign },
        );
        proof {
            let (s1, d, m) = spec_div_rem(old(self)@, a.abs@, b@, quotient_num_limbs as nat);
            assert(self@.relations =~= s1.relations.push(
                RelationView::QuotientSign { quotient: d, dividend_sign: a.sign.target, out: sign },
            ));
            if builder_well_formed(old(self)@) {
                lemma_div_rem_recorded(old(self)@, a.abs@, b@, quotient_num_limbs as nat);
                lemma_well_formed_extend(s1, self@);
            }
        }
        BigIntTarget { abs: div_abs, sign: SignTarget { target: sign } }
    }
}

} // verus!
