use vstd::prelude::*;
use vstd::arithmetic::mul::*;

verus! {

/// The radix of a limb, `2^32`.
pub open spec fn radix() -> nat {
    4294967296nat
}

/// `2^(32 * n)`: one more than the largest value `n` limbs can hold.
pub open spec fn limb_capacity(n: nat) -> nat
    decreases n,
{
    if n == 0 {
        1
    } else {
        radix() * limb_capacity((n - 1) as nat)
    }
}

/// The number held by little-endian base `2^32` digits.
pub open spec fn limbs_value(s: Seq<u32>) -> nat
    decreases s.len(),
{
    if s.len() == 0 {
        0
    } else {
        s[0] as nat + radix() * limbs_value(s.drop_first())
    }
}

/// Digits with no trailing zero digit: the shortest spelling of their value.
pub open spec fn is_minimal(s: Seq<u32>) -> bool {
    s.len() == 0 || s.last() != 0
}

pub proof fn lemma_limb_capacity_pos(n: nat)
    ensures
        limb_capacity(n) >= 1,
    decreases n,
{
    if n > 0 {
        lemma_limb_capacity_pos((n - 1) as nat);
        lemma_mul_increases(radix() as int, limb_capacity((n - 1) as nat) as int);
    }
}

/// `n` limbs hold values below `2^(32 n)`.
pub proof fn lemma_limbs_value_bound(s: Seq<u32>)
    ensures
        limbs_value(s) < limb_capacity(s.len()),
    decreases s.len(),
{
    if s.len() > 0 {
        let t = s.drop_first();
        lemma_limbs_value_bound(t);
        lemma_mul_inequality(limbs_value(t) as int + 1, limb_capacity(t.len()) as int, radix() as int);
        lemma_mul_is_commutative(limbs_value(t) as int + 1, radix() as int);
        lemma_mul_is_commutative(limb_capacity(t.len()) as int, radix() as int);
        lemma_mul_is_distributive_add(radix() as int, limbs_value(t) as int, 1);
    }
}

/// Capacity grows with the number of limbs.
pub proof fn lemma_limb_capacity_monotone(m: nat, n: nat)
    requires
        m <= n,
    ensures
        limb_capacity(m) <= limb_capacity(n),
    decreases n,
{
    if m < n {
        lemma_limb_capacity_monotone(m, (n - 1) as nat);
        lemma_limb_capacity_pos((n - 1) as nat);
        lemma_mul_increases(radix() as int, limb_capacity((n - 1) as nat) as int);
    }
}

/// Appending a zero digit does not change the value.
pub proof fn lemma_limbs_value_push_zero(s: Seq<u32>)
    ensures
        limbs_value(s.push(0u32)) == limbs_value(s),
    decreases s.len(),
{
    if s.len() == 0 {
        assert(s.push(0u32).drop_first() =~= Seq::<u32>::empty());
        assert(limbs_value(Seq::<u32>::empty()) == 0);
        assert(limbs_value(s.push(0u32)) == s.push(0u32)[0] as nat + radix() * 0);
    } else {
        assert(s.push(0u32).drop_first() =~= s.drop_first().push(0u32));
        lemma_limbs_value_push_zero(s.drop_first());
        assert(s.push(0u32)[0] == s[0]);
    }
}

/// A value is zero exactly when every digit is zero.
pub proof fn lemma_limbs_value_zero(s: Seq<u32>)
    ensures
        (limbs_value(s) == 0) <==> (forall|i: int| 0 <= i < s.len() ==> s[i] == 0),
    decreases s.len(),
{
    if s.len() > 0 {
        let t = s.drop_first();
        lemma_limbs_value_zero(t);
        if limbs_value(s) == 0 {
            lemma_mul_nonnegative(radix() as int, limbs_value(t) as int);
            assert(s[0] == 0);
            if limbs_value(t) != 0 {
                lemma_mul_strictly_positive(radix() as int, limbs_value(t) as int);
            }
            assert forall|i: int| 0 <= i < s.len() implies s[i] == 0 by {
                if i > 0 {
                    assert(s[i] == t[i - 1]);
                }
            }
        }
        if forall|i: int| 0 <= i < s.len() ==> s[i] == 0 {
            assert forall|i: int| 0 <= i < t.len() implies t[i] == 0 by {
                assert(t[i] == s[i + 1]);
            }
            assert(s[0] == 0);
        }
    }
}

/// Value of digits followed by more digits.
pub proof fn lemma_limbs_value_append(s: Seq<u32>, t: Seq<u32>)
    ensures
        limbs_value(s + t) == limbs_value(s) + limb_capacity(s.len()) * limbs_value(t),
    decreases s.len(),
{
    if s.len() == 0 {
        assert(s + t =~= t);
        assert(limb_capacity(0) == 1);
        assert(limbs_value(s) == 0);
        lemma_mul_basics(limbs_value(t) as int);
    } else {
        assert((s + t).drop_first() =~= s.drop_first() + t);
        assert((s + t)[0] == s[0]);
        assert(limb_capacity(s.len()) == radix() * limb_capacity(s.drop_first().len()));
        lemma_limbs_value_append(s.drop_first(), t);
        lemma_mul_is_distributive_add(
            radix() as int,
            limbs_value(s.drop_first()) as int,
            (limb_capacity(s.drop_first().len()) * limbs_value(t)) as int,
        );
        lemma_mul_is_associative(
            radix() as int,
            limb_capacity(s.drop_first().len()) as int,
            limbs_value(t) as int,
        );
    }
}

/// Replacing digit `i` by `x` moves the value by `(x - s[i]) * 2^(32 i)`.
pub proof fn lemma_limbs_value_update(s: Seq<u32>, i: int, x: u32)
    requires
        0 <= i < s.len(),
    ensures
        limbs_value(s.update(i, x)) + s[i] * limb_capacity(i as nat) == limbs_value(s) + x
            * limb_capacity(i as nat),
{
    let u = s.update(i, x);
    let pre = s.take(i);
    let rest = s.skip(i + 1);
    assert(s =~= pre + (seq![s[i]] + rest));
    assert(u =~= pre + (seq![x] + rest));
    assert(pre.len() == i);
    lemma_limbs_value_append(pre, seq![s[i]] + rest);
    lemma_limbs_value_append(pre, seq![x] + rest);
    assert((seq![s[i]] + rest).drop_first() =~= rest);
    assert((seq![x] + rest).drop_first() =~= rest);
    assert((seq![s[i]] + rest)[0] == s[i]);
    assert((seq![x] + rest)[0] == x);
    let c = limb_capacity(i as nat) as int;
    let r = radix() * limbs_value(rest);
    lemma_mul_is_distributive_add(c, s[i] as int, r as int);
    lemma_mul_is_distributive_add(c, x as int, r as int);
    lemma_mul_is_commutative(c, s[i] as int);
    lemma_mul_is_commutative(c, x as int);
}


/// The value of a digit string as a `u64`, or `None` when it is `2^64` or more.
pub fn digits_to_u64(d: &Vec<u32>) -> (r: Option<u64>)
    ensures
        r matches Some(v) ==> v == limbs_value(d@),
        r is None <==> limbs_value(d@) >= limb_capacity(2),
{
    let n = d.len();
    let mut i: usize = 2;
    while i < n
        invariant
            n == d@.len(),
            2 <= i,
            forall|j: int| 2 <= j < i && j < n ==> d@[j] == 0,
        decreases n - i,
    {
        if d[i] != 0 {
            proof {
                let lo = d@.take(2);
                let hi = d@.skip(2);
                assert(d@ =~= lo + hi);
                lemma_limbs_value_append(lo, hi);
                assert(hi[i - 2] != 0);
                lemma_limbs_value_zero(hi);
                assert(limbs_value(hi) > 0);
                lemma_limb_capacity_pos(2);
                lemma_mul_increases(limbs_value(hi) as int, limb_capacity(2) as int);
                lemma_mul_is_commutative(limb_capacity(2) as int, limbs_value(hi) as int);
            }
            return None;
        }
        i = i + 1;
    }
    let lo: u64 = if n > 0 { d[0] as u64 } else { 0 };
    let hi: u64 = if n > 1 { d[1] as u64 } else { 0 };
    proof {
        reveal_with_fuel(limbs_value, 3);
        reveal_with_fuel(limb_capacity, 3);
        if n >= 2 {
            let l = d@.take(2);
            let h = d@.skip(2);
            assert(d@ =~= l + h);
            lemma_limbs_value_append(l, h);
            assert forall|j: int| 0 <= j < h.len() implies h[j] == 0 by {
                assert(h[j] == d@[j + 2]);
            }
            lemma_limbs_value_zero(h);
            assert(limbs_value(h) == 0);
            assert(limbs_value(d@) == limbs_value(l));
            let l1 = l.drop_first();
            assert(l1.drop_first() =~= Seq::<u32>::empty());
            assert(limbs_value(l1) == l1[0] as nat + radix() * limbs_value(l1.drop_first()));
            assert(limbs_value(l1) == l1[0] as nat);
            assert(limbs_value(l) == l[0] as nat + radix() * limbs_value(l1));
            assert(l[0] == lo && l1[0] == hi);
        } else if n == 1 {
            assert(d@.drop_first() =~= Seq::<u32>::empty());
            assert(limbs_value(d@) == d@[0] as nat + radix() * limbs_value(d@.drop_first()));
        } else {
            assert(limbs_value(d@) == 0);
        }
        lemma_limbs_value_bound(d@.take(2));
    }
    Some(lo + hi * 4294967296)
}

} // verus!
