use lighter_circuit::builder::{BigUintDivRemGenerator, Builder, Relation};
use lighter_circuit::circuit::{BigIntTarget, BigUintTarget, PartialWitness, SignTarget, WitnessError};
use lighter_circuit::div_rem::{fill_ceil_div, fill_quotient_sign, CircuitBuilderBiguintDivRem};
use lighter_circuit::field::GoldilocksField;

fn set_limbs(w: &mut PartialWitness, t: &BigUintTarget, digits: &[u32]) {
    for (i, limb) in t.limbs.iter().enumerate() {
        let d = if i < digits.len() { digits[i] } else { 0 };
        w.set_target(limb.0, GoldilocksField::from_canonical_u32(d)).unwrap();
    }
}

fn read_limbs(w: &PartialWitness, t: &BigUintTarget) -> u128 {
    let mut v: u128 = 0;
    for limb in t.limbs.iter().rev() {
        let x = w.get_target(limb.0).unwrap().to_canonical_u64() as u128;
        v = (v << 32) + x;
    }
    v
}

fn run_generators(builder: &Builder, w: &mut PartialWitness) -> Result<(), WitnessError> {
    for g in builder.generators.iter() {
        g.run_once(w)?;
    }
    Ok(())
}

#[test]
fn div_rem_fresh_wires_and_relation() {
    let mut builder = Builder::new();
    let a = builder.add_virtual_biguint_target_safe(2);
    let b = builder.add_virtual_biguint_target_safe(1);
    let (div, rem) = builder.div_rem_biguint(&a, &b);
    assert_eq!(div.limbs.len(), 2);
    assert_eq!(rem.limbs.len(), 1);
    assert_eq!(div.limbs[0].0.index, 3);
    assert_eq!(div.limbs[1].0.index, 4);
    assert_eq!(rem.limbs[0].0.index, 5);
    assert_eq!(builder.num_targets, 6);
    assert_eq!(builder.relations.len(), 1);
    assert!(matches!(builder.relations[0], Relation::DivRem { .. }));
    assert_eq!(builder.generators.len(), 1);
    assert_eq!(builder.div_rem_biguint_cache.len(), 1);
}

#[test]
fn div_rem_second_request_reuses_wires() {
    let mut builder = Builder::new();
    let a = builder.add_virtual_biguint_target_safe(2);
    let b = builder.add_virtual_biguint_target_safe(2);
    let (d1, r1) = builder.div_rem_biguint(&a, &b);
    let n = builder.num_targets;
    let (d2, r2) = builder.div_rem_biguint(&a, &b);
    assert!(d1.same_wires(&d2));
    assert!(r1.same_wires(&r2));
    assert_eq!(builder.num_targets, n);
    assert_eq!(builder.relations.len(), 1);
    assert_eq!(builder.generators.len(), 1);
    // another quotient width is another division
    let (d3, _r3) = builder.div_rem_biguint_trimmed(&a, &b, 1);
    assert_eq!(d3.limbs.len(), 1);
    assert_eq!(builder.relations.len(), 2);
}

#[test]
fn div_rem_generator_computes_quotient_and_remainder() {
    let mut builder = Builder::new();
    let a = builder.add_virtual_biguint_target_safe(2);
    let b = builder.add_virtual_biguint_target_safe(1);
    let (div, rem) = builder.div_rem_biguint(&a, &b);
    let mut w = PartialWitness::new();
    // a = 2^32 * 3 + 100
    set_limbs(&mut w, &a, &[100, 3]);
    set_limbs(&mut w, &b, &[7]);
    run_generators(&builder, &mut w).unwrap();
    let av: u128 = (3u128 << 32) + 100;
    assert_eq!(read_limbs(&w, &div), av / 7);
    assert_eq!(read_limbs(&w, &rem), av % 7);
}

#[test]
fn div_rem_generator_zero_divisor_gives_zeros() {
    let mut builder = Builder::new();
    let a = builder.add_virtual_biguint_target_safe(1);
    let b = builder.add_virtual_biguint_target_safe(1);
    let (div, rem) = builder.div_rem_biguint(&a, &b);
    let mut w = PartialWitness::new();
    set_limbs(&mut w, &a, &[12345]);
    set_limbs(&mut w, &b, &[0]);
    run_generators(&builder, &mut w).unwrap();
    assert_eq!(read_limbs(&w, &div), 0);
    assert_eq!(read_limbs(&w, &rem), 0);
}

#[test]
fn div_rem_trimmed_quotient_too_wide_fails() {
    let mut builder = Builder::new();
    let a = builder.add_virtual_biguint_target_safe(2);
    let b = builder.add_virtual_biguint_target_safe(1);
    let (_div, _rem) = builder.div_rem_biguint_trimmed(&a, &b, 1);
    let mut w = PartialWitness::new();
    set_limbs(&mut w, &a, &[0, 5]);
    set_limbs(&mut w, &b, &[1]);
    assert_eq!(run_generators(&builder, &mut w), Err(WitnessError::TooManyDigits));
}

#[test]
fn div_rem_generator_missing_input_fails() {
    let mut builder = Builder::new();
    let a = builder.add_virtual_biguint_target_safe(1);
    let b = builder.add_virtual_biguint_target_safe(1);
    let _ = builder.div_rem_biguint(&a, &b);
    let mut w = PartialWitness::new();
    set_limbs(&mut w, &a, &[9]);
    assert_eq!(run_generators(&builder, &mut w), Err(WitnessError::MissingValue));
}

#[test]
fn div_rem_generator_out_of_range_limb_fails() {
    let mut builder = Builder::new();
    let a = builder.add_virtual_biguint_target_safe(1);
    let b = builder.add_virtual_biguint_target_safe(1);
    let _ = builder.div_rem_biguint(&a, &b);
    let mut w = PartialWitness::new();
    w.set_target(a.limbs[0].0, GoldilocksField::from_canonical_u64(1u64 << 40)).unwrap();
    set_limbs(&mut w, &b, &[3]);
    assert_eq!(run_generators(&builder, &mut w), Err(WitnessError::LimbOutOfRange));
}

#[test]
fn div_rem_generator_conflicting_output_fails() {
    let mut builder = Builder::new();
    let a = builder.add_virtual_biguint_target_safe(1);
    let b = builder.add_virtual_biguint_target_safe(1);
    let (div, _rem) = builder.div_rem_biguint(&a, &b);
    let mut w = PartialWitness::new();
    set_limbs(&mut w, &a, &[20]);
    set_limbs(&mut w, &b, &[3]);
    w.set_target(div.limbs[0].0, GoldilocksField::from_canonical_u64(5)).unwrap();
    assert_eq!(run_generators(&builder, &mut w), Err(WitnessError::ConflictingValue));
}

#[test]
fn generator_dependencies_list_inputs() {
    let mut builder = Builder::new();
    let a = builder.add_virtual_biguint_target_safe(2);
    let b = builder.add_virtual_biguint_target_safe(1);
    let _ = builder.div_rem_biguint(&a, &b);
    let g: &BigUintDivRemGenerator = &builder.generators[0];
    let deps = g.dependencies();
    let idx: Vec<usize> = deps.iter().map(|t| t.index).collect();
    assert_eq!(idx, vec![0, 1, 2]);
    assert_eq!(g.id(), "BigUintDivRemGenerator");
}

#[test]
fn div_and_rem_projections() {
    let mut builder = Builder::new();
    let a = builder.add_virtual_biguint_target_safe(2);
    let b = builder.add_virtual_biguint_target_safe(1);
    let d = builder.div_biguint(&a, &b);
    let r = builder.rem_biguint(&a, &b);
    let (d2, r2) = builder.div_rem_biguint(&a, &b);
    assert!(d.same_wires(&d2));
    assert!(r.same_wires(&r2));
    let d3 = builder.div_biguint_trimmed(&a, &b, 2);
    assert!(d3.same_wires(&d2));
    assert_eq!(builder.relations.len(), 1);
}

#[test]
fn ceil_div_records_rounding_constraint() {
    let mut builder = Builder::new();
    let a = builder.add_virtual_biguint_target_safe(2);
    let b = builder.add_virtual_biguint_target_safe(1);
    let out = builder.ceil_div_biguint(&a, &b);
    assert_eq!(out.limbs.len(), 3);
    assert_eq!(out.limbs[0].0.index, 6);
    assert_eq!(builder.num_targets, 9);
    assert_eq!(builder.relations.len(), 2);
    assert!(matches!(builder.relations[1], Relation::CeilDiv { .. }));
}

#[test]
fn signed_division_records_sign_constraint() {
    let mut builder = Builder::new();
    let abs = builder.add_virtual_biguint_target_safe(2);
    let sign = builder.add_virtual_target();
    let a = BigIntTarget { abs, sign: SignTarget { target: sign } };
    let b = builder.add_virtual_biguint_target_safe(1);
    let q = builder.div_bigint_by_biguint(&a, &b);
    assert_eq!(q.abs.limbs.len(), 2);
    assert_eq!(q.sign.target.index, 7);
    assert_eq!(builder.relations.len(), 2);
    match &builder.relations[1] {
        Relation::QuotientSign { dividend_sign, out, .. } => {
            assert_eq!(dividend_sign.index, 2);
            assert_eq!(out.index, 7);
        }
        _ => panic!("expected a quotient sign constraint"),
    }
    let q2 = builder.div_bigint_by_biguint_trimmed(&a, &b, 1);
    assert_eq!(q2.abs.limbs.len(), 1);
}

#[test]
fn div_rem_generator_writes_only_quotient_and_remainder() {
    let mut builder = Builder::new();
    let a = builder.add_virtual_biguint_target_safe(1);
    let b = builder.add_virtual_biguint_target_safe(1);
    let other = builder.add_virtual_target();
    let spare = builder.add_virtual_target();
    let (div, rem) = builder.div_rem_biguint(&a, &b);
    let mut w = PartialWitness::new();
    set_limbs(&mut w, &a, &[50]);
    set_limbs(&mut w, &b, &[7]);
    w.set_target(other, GoldilocksField::from_canonical_u64(99)).unwrap();
    run_generators(&builder, &mut w).unwrap();
    assert_eq!(read_limbs(&w, &div), 7);
    assert_eq!(read_limbs(&w, &rem), 1);
    assert_eq!(w.get_target(other).unwrap().to_canonical_u64(), 99);
    assert!(w.get_target(spare).is_none());
    assert_eq!(read_limbs(&w, &a), 50);
}

fn ceil_setup(a_digits: &[u32], b_digits: &[u32]) -> (Builder, PartialWitness, BigUintTarget, BigUintTarget) {
    let mut builder = Builder::new();
    let a = builder.add_virtual_biguint_target_safe(2);
    let b = builder.add_virtual_biguint_target_safe(1);
    let out = builder.ceil_div_biguint(&a, &b);
    let mut w = PartialWitness::new();
    set_limbs(&mut w, &a, a_digits);
    set_limbs(&mut w, &b, b_digits);
    run_generators(&builder, &mut w).unwrap();
    (builder, w, a, out)
}

fn fill_ceil(builder: &Builder, w: &mut PartialWitness) -> Result<(), WitnessError> {
    match &builder.relations[1] {
        Relation::CeilDiv { a, b, div, rem, out } => fill_ceil_div(w, a, b, div, rem, out),
        _ => panic!("expected a ceiling division constraint"),
    }
}

#[test]
fn ceil_div_fill_rounds_up() {
    let (builder, mut w, _a, out) = ceil_setup(&[50, 0], &[7]);
    fill_ceil(&builder, &mut w).unwrap();
    assert_eq!(read_limbs(&w, &out), 8);
}

#[test]
fn ceil_div_fill_exact_quotient() {
    let (builder, mut w, _a, out) = ceil_setup(&[49, 0], &[7]);
    fill_ceil(&builder, &mut w).unwrap();
    assert_eq!(read_limbs(&w, &out), 7);
}

#[test]
fn ceil_div_fill_carries_across_limbs() {
    // a = 2^64 - 1, b = 1: the quotient is a, rounded up stays a
    let (builder, mut w, _a, out) = ceil_setup(&[u32::MAX, u32::MAX], &[1]);
    fill_ceil(&builder, &mut w).unwrap();
    assert_eq!(read_limbs(&w, &out), u64::MAX as u128);
    // a = 2^64 - 1, b = 2^32: quotient 2^32 - 1 with a remainder, rounded up to 2^32
    let mut builder2 = Builder::new();
    let a2 = builder2.add_virtual_biguint_target_safe(2);
    let b2 = builder2.add_virtual_biguint_target_safe(2);
    let out2 = builder2.ceil_div_biguint(&a2, &b2);
    let mut w2 = PartialWitness::new();
    set_limbs(&mut w2, &a2, &[u32::MAX, u32::MAX]);
    set_limbs(&mut w2, &b2, &[0, 1]);
    run_generators(&builder2, &mut w2).unwrap();
    fill_ceil(&builder2, &mut w2).unwrap();
    assert_eq!(read_limbs(&w2, &out2), 1u128 << 32);
}

#[test]
fn ceil_div_fill_zero_divisor_gives_dividend() {
    let (builder, mut w, _a, out) = ceil_setup(&[12345, 6], &[0]);
    fill_ceil(&builder, &mut w).unwrap();
    assert_eq!(read_limbs(&w, &out), (6u128 << 32) + 12345);
}

#[test]
fn ceil_div_fill_needs_the_quotient() {
    let mut builder = Builder::new();
    let a = builder.add_virtual_biguint_target_safe(1);
    let b = builder.add_virtual_biguint_target_safe(1);
    let _out = builder.ceil_div_biguint(&a, &b);
    let mut w = PartialWitness::new();
    set_limbs(&mut w, &a, &[5]);
    set_limbs(&mut w, &b, &[2]);
    assert!(matches!(fill_ceil(&builder, &mut w), Err(WitnessError::MissingValue)));
}

fn sign_setup(q_digits: &[u32], sign: u64) -> (PartialWitness, BigUintTarget, lighter_circuit::circuit::Target, lighter_circuit::circuit::Target) {
    let mut builder = Builder::new();
    let quotient = builder.add_virtual_biguint_target_safe(1);
    let ds = builder.add_virtual_target();
    let out = builder.add_virtual_target();
    let mut w = PartialWitness::new();
    set_limbs(&mut w, &quotient, q_digits);
    w.set_target(ds, GoldilocksField::from_canonical_u64(sign)).unwrap();
    (w, quotient, ds, out)
}

#[test]
fn quotient_sign_fill_follows_dividend() {
    let p = 18446744069414584321u64;
    let (mut w, q, ds, out) = sign_setup(&[3], p - 1);
    fill_quotient_sign(&mut w, &q, ds, out).unwrap();
    assert_eq!(w.get_target(out).unwrap().to_canonical_u64(), p - 1);
    let (mut w, q, ds, out) = sign_setup(&[3], 1);
    fill_quotient_sign(&mut w, &q, ds, out).unwrap();
    assert_eq!(w.get_target(out).unwrap().to_canonical_u64(), 1);
}

#[test]
fn quotient_sign_fill_zero_quotient() {
    let (mut w, q, ds, out) = sign_setup(&[0], 18446744069414584320);
    fill_quotient_sign(&mut w, &q, ds, out).unwrap();
    assert_eq!(w.get_target(out).unwrap().to_canonical_u64(), 0);
}

#[test]
fn quotient_sign_fill_rejects_non_sign() {
    let (mut w, q, ds, out) = sign_setup(&[3], 2);
    assert!(matches!(fill_quotient_sign(&mut w, &q, ds, out), Err(WitnessError::InvalidSign)));
    assert!(w.get_target(out).is_none());
}
