use lighter_circuit::field::GoldilocksField;

const P: u64 = 18446744069414584321;

#[test]
fn field_add_wraps_at_the_prime() {
    let a = GoldilocksField::from_canonical_u64(P - 1);
    let b = GoldilocksField::from_canonical_u64(5);
    assert_eq!(a.add(&b).to_canonical_u64(), 4);
}

#[test]
fn field_sub_wraps_below_zero() {
    let a = GoldilocksField::from_canonical_u64(3);
    let b = GoldilocksField::from_canonical_u64(5);
    assert_eq!(a.sub(&b).to_canonical_u64(), P - 2);
}

#[test]
fn field_mul_reduces() {
    let a = GoldilocksField::from_canonical_u64(1u64 << 32);
    let b = GoldilocksField::from_canonical_u64(1u64 << 32);
    // 2^64 = 2^32 - 1 (mod p)
    assert_eq!(a.mul(&b).to_canonical_u64(), (1u64 << 32) - 1);
}

#[test]
fn field_negative_i64_maps_to_p_minus_abs() {
    assert_eq!(GoldilocksField::from_noncanonical_i64(-1).to_canonical_u64(), P - 1);
    assert_eq!(GoldilocksField::from_noncanonical_i64(-7).to_canonical_u64(), P - 7);
    assert_eq!(GoldilocksField::from_noncanonical_i64(i64::MIN).to_canonical_u64(), P - (1u64 << 63));
    assert_eq!(GoldilocksField::from_noncanonical_i64(42).to_canonical_u64(), 42);
}

#[test]
fn field_noncanonical_u64_reduces() {
    assert_eq!(GoldilocksField::from_noncanonical_u64(u64::MAX).to_canonical_u64(), u64::MAX - P);
    assert_eq!(GoldilocksField::from_noncanonical_u64(P).to_canonical_u64(), 0);
}

#[test]
fn field_add_then_sub_is_identity() {
    let a = GoldilocksField::from_canonical_u64(P - 10);
    let b = GoldilocksField::from_canonical_u64(123456789);
    assert_eq!(a.add(&b).sub(&b).to_canonical_u64(), P - 10);
}
