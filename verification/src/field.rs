use vstd::prelude::*;
use vstd::arithmetic::div_mod::*;
use vstd::arithmetic::mul::*;

verus! {

/// The order of the Goldilocks field, `2^64 - 2^32 + 1`.
pub const GOLDILOCKS_ORDER: u64 = 18446744069414584321u64;

/// The Goldilocks prime as a mathematical integer.
pub open spec fn p() -> nat {
    18446744069414584321nat
}

/// The canonical representative of an integer modulo the Goldilocks prime.
pub open spec fn to_field(x: int) -> nat {
    (x % (p() as int)) as nat
}

/// The field value of an `i64` whose bits are read as a `u64`.
pub open spec fn i64_field(n: i64) -> nat {
    ((n as u64) as nat) % p()
}

/// An element of the Goldilocks field, held in canonical form (below the prime).
#[derive(Clone, Copy, Debug)]
pub struct GoldilocksField {
    value: u64,
}

impl View for GoldilocksField {
    type V = nat;

    closed spec fn view(&self) -> nat {
        (self.value as nat) % p()
    }
}

/// Every field element is below the prime.
pub proof fn lemma_field_bound(x: GoldilocksField)
    ensures
        x@ < p(),
{
    vstd::arithmetic::div_mod::lemma_mod_bound(x.value as int, p() as int);
}

impl GoldilocksField {
    #[verifier::type_invariant]
    closed spec fn canonical(self) -> bool {
        self.value < GOLDILOCKS_ORDER
    }

    /// The stored value is its own residue.
    proof fn lemma_view(self)
        requires
            self.value < GOLDILOCKS_ORDER,
        ensures
            self@ == self.value,
    {
        lemma_small_mod(self.value as nat, p());
    }

    pub fn zero() -> (r: Self)
        ensures
            r@ == 0,
    {
        GoldilocksField { value: 0 }
    }

    pub fn one() -> (r: Self)
        ensures
            r@ == 1,
    {
        GoldilocksField { value: 1 }
    }

    /// The element `p - 1`, that is, minus one.
    pub fn neg_one() -> (r: Self)
        ensures
            r@ == p() - 1,
            r@ == to_field(-1),
    {
        GoldilocksField { value: 18446744069414584320u64 }
    }

    pub fn from_canonical_u64(n: u64) -> (r: Self)
        requires
            n < p(),
        ensures
            r@ == n,
    {
        GoldilocksField { value: n }
    }

    /// Reduces any `u64` modulo the prime.
    pub fn from_noncanonical_u64(n: u64) -> (r: Self)
        ensures
            r@ == to_field(n as int),
            r@ == (n as nat) % p(),
    {
        let v: u64 = if n >= GOLDILOCKS_ORDER { n - GOLDILOCKS_ORDER } else { n };
        proof {
            if n >= GOLDILOCKS_ORDER {
                lemma_fundamental_div_mod_converse(n as int, p() as int, 1, v as int);
            } else {
                lemma_small_mod(n as nat, p());
            }
        }
        GoldilocksField { value: v }
    }

    /// The field element of an `i64` read as the `u64` with the same bits.
    pub fn from_canonical_i64(n: i64) -> (r: Self)
        ensures
            r@ == i64_field(n),
    {
        Self::from_noncanonical_u64(n as u64)
    }

    pub fn from_canonical_u32(n: u32) -> (r: Self)
        ensures
            r@ == n,
    {
        GoldilocksField { value: n as u64 }
    }

    pub fn from_canonical_u16(n: u16) -> (r: Self)
        ensures
            r@ == n,
    {
        GoldilocksField { value: n as u64 }
    }

    pub fn from_canonical_u8(n: u8) -> (r: Self)
        ensures
            r@ == n,
    {
        GoldilocksField { value: n as u64 }
    }

    pub fn from_bool(b: bool) -> (r: Self)
        ensures
            r@ == (if b { 1nat } else { 0nat }),
    {
        GoldilocksField { value: if b { 1 } else { 0 } }
    }

    /// Maps a signed integer to the field: negative values wrap to `p - |n|`.
    pub fn from_noncanonical_i64(n: i64) -> (r: Self)
        ensures
            r@ == to_field(n as int),
    {
        if n >= 0 {
            let r = Self::from_noncanonical_u64(n as u64);
            r
        } else {
            let m: u64 = (0i128 - n as i128) as u64;
            let v: u64 = GOLDILOCKS_ORDER - m;
            proof {
                assert(m <= 9223372036854775808u64);
                lemma_fundamental_div_mod_converse(n as int, p() as int, -1, v as int);
            }
            GoldilocksField { value: v }
        }
    }

    pub fn to_canonical_u64(&self) -> (r: u64)
        ensures
            r == self@,
            r < p(),
    {
        proof {
            use_type_invariant(self);
            self.lemma_view();
        }
        self.value
    }

    pub fn is_zero(&self) -> (r: bool)
        ensures
            r == (self@ == 0),
    {
        proof {
            use_type_invariant(self);
            self.lemma_view();
        }
        self.value == 0
    }

    pub fn equals(&self, other: &Self) -> (r: bool)
        ensures
            r == (self@ == other@),
    {
        proof {
            use_type_invariant(self);
            use_type_invariant(other);
            self.lemma_view();
            other.lemma_view();
        }
        self.value == other.value
    }

    pub fn add(&self, other: &Self) -> (r: Self)
        ensures
            r@ == to_field(self@ + other@ as int),
    {
        proof {
            use_type_invariant(self);
            use_type_invariant(other);
            self.lemma_view();
            other.lemma_view();
        }
        let s: u128 = self.value as u128 + other.value as u128;
        let v: u128 = s % (GOLDILOCKS_ORDER as u128);
        GoldilocksField { value: v as u64 }
    }

    pub fn sub(&self, other: &Self) -> (r: Self)
        ensures
            r@ == to_field(self@ - other@ as int),
    {
        proof {
            use_type_invariant(self);
            use_type_invariant(other);
            self.lemma_view();
            other.lemma_view();
        }
        let s: u128 = self.value as u128 + GOLDILOCKS_ORDER as u128 - other.value as u128;
        let v: u128 = s % (GOLDILOCKS_ORDER as u128);
        proof {
            lemma_mod_add_multiples_vanish(self@ - other@, p() as int);
        }
        GoldilocksField { value: v as u64 }
    }

    pub fn neg(&self) -> (r: Self)
        ensures
            r@ == to_field(-(self@ as int)),
    {
        let z = Self::zero();
        z.sub(self)
    }

    pub fn mul(&self, other: &Self) -> (r: Self)
        ensures
            r@ == to_field(self@ * other@ as int),
    {
        proof {
            use_type_invariant(self);
            use_type_invariant(other);
            self.lemma_view();
            other.lemma_view();
            lemma_mul_upper_bound(self@ as int, u64::MAX as int, other@ as int, u64::MAX as int);
            assert(u64::MAX as int * u64::MAX as int <= u128::MAX) by (nonlinear_arith);
        }
        let s: u128 = self.value as u128 * other.value as u128;
        let v: u128 = s % (GOLDILOCKS_ORDER as u128);
        GoldilocksField { value: v as u64 }
    }

    /// `if flag { a } else { b }`, the field-level select gate.
    pub fn select(flag: bool, a: &Self, b: &Self) -> (r: Self)
        ensures
            r@ == (if flag { a@ } else { b@ }),
    {
        if flag { *a } else { *b }
    }
}

/// Reducing an already reduced value changes nothing.
pub proof fn lemma_to_field_small(x: int)
    requires
        0 <= x < p(),
    ensures
        to_field(x) == x,
{
    lemma_small_mod(x as nat, p());
}

pub proof fn lemma_to_field_bound(x: int)
    ensures
        to_field(x) < p(),
{
    lemma_mod_bound(x, p() as int);
}

/// Reduction may be applied to the operands of a sum before or after adding.
pub proof fn lemma_to_field_add(x: int, y: int)
    ensures
        to_field(to_field(x) + to_field(y) as int) == to_field(x + y),
{
    lemma_mod_bound(x, p() as int);
    lemma_mod_bound(y, p() as int);
    lemma_add_mod_noop(x, y, p() as int);
}

/// Reduction may be applied to the operands of a difference before or after subtracting.
pub proof fn lemma_to_field_sub(x: int, y: int)
    ensures
        to_field(to_field(x) - to_field(y) as int) == to_field(x - y),
{
    lemma_mod_bound(x, p() as int);
    lemma_mod_bound(y, p() as int);
    lemma_sub_mod_noop(x, y, p() as int);
}

/// Adding and then subtracting the same element gives back the starting element.
pub proof fn lemma_add_sub_cancel(a: int, b: int)
    requires
        0 <= a < p(),
        0 <= b < p(),
    ensures
        to_field(to_field(a + b) - b) == a,
{
    lemma_to_field_small(b);
    lemma_to_field_sub(a + b, b);
    lemma_to_field_small(a);
}

} // verus!
