use vstd::prelude::*;
use crate::field::GoldilocksField;
use crate::limbs::{radix, limbs_value, is_minimal, limb_capacity, lemma_limbs_value_push_zero};
use crate::circuit::{BigUintTarget, PartialWitness, WitnessError, extends, limbs_set, limbs_val, fresh_limbs};
use crate::builder::{Builder, BuilderView};
use crate::div_rem::{set_biguint_target, limbs_unset, distinct_wires, lemma_minimal_len};
use crate::circuit::{U32Target, value_at};

verus! {

/// Number of 32-bit limbs of a non-native scalar wire (the scalar field has 319 bits).
pub const SCALAR_NUM_LIMBS: usize = 10;

/// The number held by little-endian base `2^64` digits.
pub open spec fn u64s_value(s: Seq<u64>) -> nat
    decreases s.len(),
{
    if s.len() == 0 {
        0
    } else {
        s[0] as nat + 18446744073709551616nat * u64s_value(s.drop_first())
    }
}

/// The number held by little-endian bytes.
pub open spec fn le_bytes_value(s: Seq<u8>) -> nat
    decreases s.len(),
{
    if s.len() == 0 {
        0
    } else {
        s[0] as nat + 256 * le_bytes_value(s.drop_first())
    }
}

/// A scalar of the ECgFp5 curve group, held as its canonical value in five
/// little-endian 64-bit limbs.
#[derive(Clone, Copy, Debug)]
pub struct ECgFp5Scalar {
    pub limbs: [u64; 5],
}

impl ECgFp5Scalar {
    pub open spec fn value(&self) -> nat {
        u64s_value(self.limbs@)
    }

    pub fn zero() -> (r: Self)
        ensures
            r.value() == 0,
    {
        let r = ECgFp5Scalar { limbs: [0u64; 5] };
        proof {
            reveal_with_fuel(u64s_value, 6);
            assert(r.limbs@.drop_first().drop_first().drop_first().drop_first().drop_first()
                =~= Seq::<u64>::empty());
        }
        r
    }

    pub fn one() -> (r: Self)
        ensures
            r.value() == 1,
    {
        let r = ECgFp5Scalar { limbs: [1u64, 0, 0, 0, 0] };
        proof {
            reveal_with_fuel(u64s_value, 6);
            assert(r.limbs@.drop_first().drop_first().drop_first().drop_first().drop_first()
                =~= Seq::<u64>::empty());
        }
        r
    }
}

/// A Schnorr signature `(s, e)` with `s = k - e * sk`.
#[derive(Clone, Copy, Debug)]
pub struct SchnorrSig {
    pub s: ECgFp5Scalar,
    pub e: ECgFp5Scalar,
}

impl SchnorrSig {
    /// The all-zero signature.
    pub fn zero() -> (r: Self)
        ensures
            r.s.value() == 0,
            r.e.value() == 0,
    {
        SchnorrSig { s: ECgFp5Scalar::zero(), e: ECgFp5Scalar::zero() }
    }
}

impl Default for SchnorrSig {
    fn default() -> (r: Self)
        ensures
            r.s.value() == 0,
            r.e.value() == 0,
    {
        Self::zero()
    }
}

/// Splitting 64-bit limbs into 32-bit halves keeps the value.
proof fn lemma_split_u64s(l: Seq<u64>, d: Seq<u32>)
    requires
        d.len() == 2 * l.len(),
        forall|i: int|
            0 <= i < l.len() ==> #[trigger] l[i] as nat == d[2 * i] as nat + radix() * d[2 * i + 1] as nat,
    ensures
        limbs_value(d) == u64s_value(l),
    decreases l.len(),
{
    if l.len() > 0 {
        let l2 = l.drop_first();
        let d2 = d.drop_first().drop_first();
        assert forall|i: int| 0 <= i < l2.len() implies #[trigger] l2[i] as nat == d2[2 * i] as nat
            + radix() * d2[2 * i + 1] as nat by {
            assert(l2[i] == l[i + 1]);
            assert(d2[2 * i] == d[2 * (i + 1)]);
            assert(d2[2 * i + 1] == d[2 * (i + 1) + 1]);
        }
        lemma_split_u64s(l2, d2);
        assert(l[0] as nat == d[0] as nat + radix() * d[1] as nat);
        assert(d.drop_first()[0] == d[1]);
        let v = limbs_value(d2);
        assert(limbs_value(d.drop_first()) == d[1] as nat + radix() * v);
        assert(limbs_value(d) == d[0] as nat + radix() * limbs_value(d.drop_first()));
        assert(u64s_value(l) == l[0] as nat + 18446744073709551616nat * u64s_value(l2));
        assert(limbs_value(d) == d[0] as nat + radix() * d[1] as nat + 18446744073709551616nat * v)
            by (nonlinear_arith)
            requires
                limbs_value(d) == d[0] as nat + radix() * limbs_value(d.drop_first()),
                limbs_value(d.drop_first()) == d[1] as nat + radix() * v,
                radix() == 4294967296nat,
        ;
    }
}

/// Splitting 32-bit digits into bytes keeps the value.
proof fn lemma_split_u32s(d: Seq<u32>, b: Seq<u8>)
    requires
        b.len() == 4 * d.len(),
        forall|i: int|
            0 <= i < d.len() ==> #[trigger] d[i] as nat == b[4 * i] as nat + 256 * b[4 * i + 1] as nat
                + 65536 * b[4 * i + 2] as nat + 16777216 * b[4 * i + 3] as nat,
    ensures
        le_bytes_value(b) == limbs_value(d),
    decreases d.len(),
{
    if d.len() > 0 {
        let d2 = d.drop_first();
        let b1 = b.drop_first();
        let b2 = b1.drop_first();
        let b3 = b2.drop_first();
        let b4 = b3.drop_first();
        assert forall|i: int| 0 <= i < d2.len() implies #[trigger] d2[i] as nat == b4[4 * i] as nat
            + 256 * b4[4 * i + 1] as nat + 65536 * b4[4 * i + 2] as nat + 16777216 * b4[4 * i
            + 3] as nat by {
            assert(d2[i] == d[i + 1]);
            assert(b4[4 * i] == b[4 * (i + 1)]);
            assert(b4[4 * i + 1] == b[4 * (i + 1) + 1]);
            assert(b4[4 * i + 2] == b[4 * (i + 1) + 2]);
            assert(b4[4 * i + 3] == b[4 * (i + 1) + 3]);
        }
        lemma_split_u32s(d2, b4);
        assert(d[0] as nat == b[0] as nat + 256 * b[1] as nat + 65536 * b[2] as nat + 16777216
            * b[3] as nat);
        assert(b1[0] == b[1] && b2[0] == b[2] && b3[0] == b[3]);
        let v = le_bytes_value(b4);
        assert(le_bytes_value(b3) == b[3] as nat + 256 * v);
        assert(le_bytes_value(b2) == b[2] as nat + 256 * le_bytes_value(b3));
        assert(le_bytes_value(b1) == b[1] as nat + 256 * le_bytes_value(b2));
        assert(le_bytes_value(b) == b[0] as nat + 256 * le_bytes_value(b1));
        assert(limbs_value(d) == d[0] as nat + radix() * limbs_value(d2));
    }
}

/// The ten 32-bit digits of a scalar, least significant first.
fn scalar_u32_digits(s: &ECgFp5Scalar) -> (r: Vec<u32>)
    ensures
        r@.len() == SCALAR_NUM_LIMBS,
        limbs_value(r@) == s.value(),
{
    let mut d: Vec<u32> = Vec::new();
    let mut i: usize = 0;
    while i < 5
        invariant
            0 <= i <= 5,
            d@.len() == 2 * i,
            forall|k: int|
                0 <= k < i ==> #[trigger] s.limbs@[k] as nat == d@[2 * k] as nat + radix() * d@[2 * k
                    + 1] as nat,
        decreases 5 - i,
    {
        let l = s.limbs[i];
        let lo = l as u32;
        let hi = (l >> 32u64) as u32;
        assert(l == lo as u64 + 4294967296u64 * hi as u64) by (bit_vector)
            requires
                lo == l as u32,
                hi == (l >> 32u64) as u32,
        ;
        d.push(lo);
        d.push(hi);
        i = i + 1;
    }
    proof {
        lemma_split_u64s(s.limbs@, d@);
    }
    d
}

/// Removes trailing zero digits.
pub(crate) fn trim_digits(d: Vec<u32>) -> (r: Vec<u32>)
    ensures
        is_minimal(r@),
        limbs_value(r@) == limbs_value(d@),
        r@.len() <= d@.len(),
{
    let mut r = d;
    while r.len() > 0 && r[r.len() - 1] == 0
        invariant
            limbs_value(r@) == limbs_value(d@),
            r@.len() <= d@.len(),
        decreases r.len(),
    {
        let ghost before = r@;
        r.pop();
        proof {
            assert(before =~= r@.push(0u32));
            lemma_limbs_value_push_zero(r@);
        }
    }
    r
}

/// The 40 little-endian bytes of a scalar, as four bytes per 32-bit digit.
pub fn scalar_to_bytes(s: &ECgFp5Scalar) -> (r: [u8; 40])
    ensures
        le_bytes_value(r@) == s.value(),
{
    let digits = scalar_u32_digits(s);
    let mut bytes = [0u8; 40];
    let mut i: usize = 0;
    while i < 10
        invariant
            0 <= i <= 10,
            digits@.len() == 10,
            bytes@.len() == 40,
            forall|k: int|
                0 <= k < i ==> #[trigger] digits@[k] as nat == bytes@[4 * k] as nat + 256 * bytes@[4
                    * k + 1] as nat + 65536 * bytes@[4 * k + 2] as nat + 16777216 * bytes@[4 * k
                    + 3] as nat,
        decreases 10 - i,
    {
        let d = digits[i];
        let b0 = (d & 0xff) as u8;
        let b1 = ((d >> 8u32) & 0xff) as u8;
        let b2 = ((d >> 16u32) & 0xff) as u8;
        let b3 = ((d >> 24u32) & 0xff) as u8;
        assert(d == b0 as u32 + 256u32 * b1 as u32 + 65536u32 * b2 as u32 + 16777216u32 * b3 as u32)
            by (bit_vector)
            requires
                b0 == (d & 0xff) as u8,
                b1 == ((d >> 8u32) & 0xff) as u8,
                b2 == ((d >> 16u32) & 0xff) as u8,
                b3 == ((d >> 24u32) & 0xff) as u8,
        ;
        bytes[4 * i] = b0;
        bytes[4 * i + 1] = b1;
        bytes[4 * i + 2] = b2;
        bytes[4 * i + 3] = b3;
        i = i + 1;
    }
    proof {
        lemma_split_u32s(digits@, bytes@);
    }
    bytes
}

/// The 40 little-endian bytes of a quintic extension element: eight bytes per base-field
/// limb, in limb order.
pub fn quintic_ext_to_fp5_bytes(x: &[GoldilocksField; 5]) -> (r: [u8; 40])
    ensures
        forall|i: int|
            0 <= i < 5 ==> #[trigger] le_bytes_value(r@.subrange(8 * i, 8 * i + 8)) == x@[i]@,
{
    let mut bytes = [0u8; 40];
    let mut i: usize = 0;
    while i < 5
        invariant
            0 <= i <= 5,
            bytes@.len() == 40,
            forall|k: int|
                0 <= k < i ==> #[trigger] le_bytes_value(bytes@.subrange(8 * k, 8 * k + 8)) == x@[k]@,
        decreases 5 - i,
    {
        let v = x[i].to_canonical_u64();
        let mut j: usize = 0;
        let ghost before = bytes@;
        while j < 8
            invariant
                0 <= j <= 8,
                0 <= i < 5,
                bytes@.len() == 40,
                before.len() == 40,
                forall|k: int| 0 <= k < 8 * i ==> bytes@[k] == before[k],
                forall|k: int| 0 <= k < j ==> #[trigger] bytes@[8 * i + k] == byte_of(v, k as nat),
            decreases 8 - j,
        {
            let b = ((v >> (8 * j as u64)) & 0xff) as u8;
            assert(b == byte_of(v, j as nat));
            bytes[8 * i + j] = b;
            j = j + 1;
        }
        proof {
            let sub = bytes@.subrange(8 * i, 8 * i + 8);
            assert forall|k: int| 0 <= k < 8 implies #[trigger] sub[k] == byte_of(v, k as nat) by {
                assert(sub[k] == bytes@[8 * i + k]);
            }
            lemma_u64_le_bytes(v, sub);
            assert forall|k: int| 0 <= k < i implies #[trigger] le_bytes_value(
                bytes@.subrange(8 * k, 8 * k + 8),
            ) == x@[k]@ by {
                assert(bytes@.subrange(8 * k, 8 * k + 8) =~= before.subrange(8 * k, 8 * k + 8));
            }
        }
        i = i + 1;
    }
    bytes
}

/// Byte `k` of a `u64`, least significant first.
pub open spec fn byte_of(v: u64, k: nat) -> u8 {
    ((v >> (8 * k) as u64) & 0xff) as u8
}

/// Eight little-endian bytes spell the `u64` they were cut from.
proof fn lemma_u64_le_bytes(v: u64, b: Seq<u8>)
    requires
        b.len() == 8,
        forall|k: int| 0 <= k < 8 ==> #[trigger] b[k] == byte_of(v, k as nat),
    ensures
        le_bytes_value(b) == v,
{
    let b0 = b[0];
    let b1 = b[1];
    let b2 = b[2];
    let b3 = b[3];
    let b4 = b[4];
    let b5 = b[5];
    let b6 = b[6];
    let b7 = b[7];
    assert(b0 == byte_of(v, 0) && b1 == byte_of(v, 1) && b2 == byte_of(v, 2) && b3 == byte_of(v, 3));
    assert(b4 == byte_of(v, 4) && b5 == byte_of(v, 5) && b6 == byte_of(v, 6) && b7 == byte_of(v, 7));
    assert(v == b0 as u64 + 256u64 * b1 as u64 + 65536u64 * b2 as u64 + 16777216u64 * b3 as u64
        + 4294967296u64 * b4 as u64 + 1099511627776u64 * b5 as u64 + 281474976710656u64 * b6 as u64
        + 72057594037927936u64 * b7 as u64) by (bit_vector)
        requires
            b0 == ((v >> 0u64) & 0xff) as u8,
            b1 == ((v >> 8u64) & 0xff) as u8,
            b2 == ((v >> 16u64) & 0xff) as u8,
            b3 == ((v >> 24u64) & 0xff) as u8,
            b4 == ((v >> 32u64) & 0xff) as u8,
            b5 == ((v >> 40u64) & 0xff) as u8,
            b6 == ((v >> 48u64) & 0xff) as u8,
            b7 == ((v >> 56u64) & 0xff) as u8,
    ;
    reveal_with_fuel(le_bytes_value, 9);
    assert(b.drop_first().drop_first().drop_first().drop_first().drop_first().drop_first().drop_first().drop_first() =~= Seq::<u8>::empty());
}

/// The 80 bytes of a signature: the 40 bytes of `s`, then the 40 bytes of `e`.
pub fn schnorr_sig_to_signature_bytes(sig: &SchnorrSig) -> (r: [u8; 80])
    ensures
        le_bytes_value(r@.subrange(0, 40)) == sig.s.value(),
        le_bytes_value(r@.subrange(40, 80)) == sig.e.value(),
{
    let s_bytes = scalar_to_bytes(&sig.s);
    let e_bytes = scalar_to_bytes(&sig.e);
    let mut bytes = [0u8; 80];
    let mut i: usize = 0;
    while i < 40
        invariant
            0 <= i <= 40,
            bytes@.len() == 80,
            forall|k: int| 0 <= k < i ==> bytes@[k] == s_bytes@[k],
            forall|k: int| 0 <= k < i ==> bytes@[40 + k] == e_bytes@[k],
        decreases 40 - i,
    {
        bytes[i] = s_bytes[i];
        bytes[40 + i] = e_bytes[i];
        i = i + 1;
    }
    assert(bytes@.subrange(0, 40) =~= s_bytes@);
    assert(bytes@.subrange(40, 80) =~= e_bytes@);
    bytes
}

/// When a write touches only the limbs of `front`, the limbs of `rest` that were unset and
/// distinct stay so.
proof fn lemma_split_unset(
    w: Seq<Option<nat>>,
    w2: Seq<Option<nat>>,
    front: Seq<U32Target>,
    rest: Seq<U32Target>,
)
    requires
        limbs_unset(w, front + rest),
        distinct_wires(front + rest),
        forall|k: int|
            (forall|j: int| 0 <= j < front.len() ==> front[j].0.index != k) ==> #[trigger] value_at(
                w2,
                k,
            ) == value_at(w, k),
    ensures
        limbs_unset(w, front),
        distinct_wires(front),
        limbs_unset(w2, rest),
        distinct_wires(rest),
{
    let all = front + rest;
    assert forall|i: int| 0 <= i < front.len() implies value_at(w, #[trigger] front[i].0.index as int) is None by {
        assert(all[i] == front[i]);
    }
    assert forall|i: int, j: int| 0 <= i < j < front.len() implies #[trigger] front[i].0.index
        != #[trigger] front[j].0.index by {
        assert(all[i] == front[i] && all[j] == front[j]);
    }
    assert forall|i: int| 0 <= i < rest.len() implies value_at(w2, #[trigger] rest[i].0.index as int) is None by {
        let k = rest[i].0.index as int;
        assert(all[front.len() + i] == rest[i]);
        assert forall|j: int| 0 <= j < front.len() implies front[j].0.index != k by {
            assert(all[j] == front[j]);
        }
    }
    assert forall|i: int, j: int| 0 <= i < j < rest.len() implies #[trigger] rest[i].0.index
        != #[trigger] rest[j].0.index by {
        assert(all[front.len() + i] == rest[i] && all[front.len() + j] == rest[j]);
    }
}

/// A non-native scalar held in 32-bit limb wires.
#[derive(Clone, Debug)]
pub struct NonNativeTarget {
    pub value: BigUintTarget,
}

/// The wires of a Schnorr signature.
#[derive(Clone, Debug)]
pub struct SchnorrSigTarget {
    pub s: NonNativeTarget,
    pub e: NonNativeTarget,
}

impl SchnorrSigTarget {
    /// Fresh wires for both scalars, ten limbs each.
    pub fn new(builder: &mut Builder) -> (r: Self)
        requires
            old(builder).num_targets + 2 * SCALAR_NUM_LIMBS <= usize::MAX,
        ensures
            r.s.value@ == fresh_limbs(old(builder)@.num_targets, SCALAR_NUM_LIMBS as nat),
            r.e.value@ == fresh_limbs(
                old(builder)@.num_targets + SCALAR_NUM_LIMBS as nat,
                SCALAR_NUM_LIMBS as nat,
            ),
            final(builder)@ =~= (BuilderView {
                num_targets: old(builder)@.num_targets + 2 * SCALAR_NUM_LIMBS as nat,
                ..old(builder)@
            }),
    {
        let s = builder.add_virtual_biguint_target_safe(SCALAR_NUM_LIMBS);
        let e = builder.add_virtual_biguint_target_safe(SCALAR_NUM_LIMBS);
        SchnorrSigTarget { s: NonNativeTarget { value: s }, e: NonNativeTarget { value: e } }
    }

    /// The zero signature as constants: a zero scalar has no nonzero digit, so it takes no limb.
    pub fn empty(builder: &mut Builder) -> (r: Self)
        ensures
            r.s.value@.len() == 0,
            r.e.value@.len() == 0,
            final(builder)@ == old(builder)@,
    {
        SchnorrSigTarget {
            s: NonNativeTarget { value: BigUintTarget { limbs: Vec::new() } },
            e: NonNativeTarget { value: BigUintTarget { limbs: Vec::new() } },
        }
    }
}

/// Assigning a signature's value to its wires.
pub trait SchnorrSigTargetWitness {
    fn set_schnorr_sig_target(&mut self, t: &SchnorrSigTarget, value: &SchnorrSig) -> Result<
        (),
        WitnessError,
    >;
}

impl SchnorrSigTargetWitness for PartialWitness {
    /// Writes the digits of `s` and `e` into their limb wires; fails when a scalar has more
    /// nonzero digits than its wires, or a wire already holds another value.
    fn set_schnorr_sig_target(&mut self, t: &SchnorrSigTarget, value: &SchnorrSig) -> (r: Result<
        (),
        WitnessError,
    >)
        ensures
            extends(old(self)@, final(self)@),
            r is Ok ==> limbs_set(final(self)@, t.s.value@) && limbs_val(final(self)@, t.s.value@)
                == value.s.value(),
            r is Ok ==> limbs_set(final(self)@, t.e.value@) && limbs_val(final(self)@, t.e.value@)
                == value.e.value(),
            value.s.value() < limb_capacity(t.s.value@.len()) && value.e.value() < limb_capacity(
                t.e.value@.len(),
            ) && limbs_unset(old(self)@, t.s.value@ + t.e.value@) && distinct_wires(
                t.s.value@ + t.e.value@,
            ) ==> r is Ok,
    {
        let ghost ready = value.s.value() < limb_capacity(t.s.value@.len()) && value.e.value()
            < limb_capacity(t.e.value@.len()) && limbs_unset(old(self)@, t.s.value@ + t.e.value@)
            && distinct_wires(t.s.value@ + t.e.value@);
        let ds = trim_digits(scalar_u32_digits(&value.s));
        let de = trim_digits(scalar_u32_digits(&value.e));
        proof {
            if ready {
                lemma_split_unset(old(self)@, old(self)@, t.s.value@, t.e.value@);
                lemma_minimal_len(ds@, t.s.value@.len());
                lemma_minimal_len(de@, t.e.value@.len());
            }
        }
        match set_biguint_target(self, &t.s.value, &ds) {
            Ok(()) => {},
            Err(err) => {
                return Err(err);
            },
        }
        let ghost w1 = self@;
        proof {
            if ready {
                lemma_split_unset(old(self)@, w1, t.s.value@, t.e.value@);
            }
        }
        match set_biguint_target(self, &t.e.value, &de) {
            Ok(()) => {},
            Err(err) => {
                return Err(err);
            },
        }
        proof {
            crate::circuit::lemma_limbs_extend(w1, self@, t.s.value@);
        }
        Ok(())
    }
}

} // verus!
