use lighter_circuit::builder::Builder;
use lighter_circuit::circuit::PartialWitness;
use lighter_circuit::field::GoldilocksField;
use lighter_circuit::schnorr::{
    quintic_ext_to_fp5_bytes, scalar_to_bytes, schnorr_sig_to_signature_bytes, ECgFp5Scalar,
    SchnorrSig, SchnorrSigTarget, SchnorrSigTargetWitness,
};

#[test]
fn scalar_to_bytes_is_little_endian() {
    let s = ECgFp5Scalar { limbs: [0x0807060504030201, 0, 0, 0, 0x1122334455667788] };
    let b = scalar_to_bytes(&s);
    assert_eq!(&b[0..8], &[1, 2, 3, 4, 5, 6, 7, 8]);
    assert!(b[8..32].iter().all(|&x| x == 0));
    assert_eq!(&b[32..40], &[0x88, 0x77, 0x66, 0x55, 0x44, 0x33, 0x22, 0x11]);
}

#[test]
fn scalar_to_bytes_of_one_and_zero() {
    let one = scalar_to_bytes(&ECgFp5Scalar::one());
    assert_eq!(one[0], 1);
    assert!(one[1..].iter().all(|&x| x == 0));
    assert!(scalar_to_bytes(&ECgFp5Scalar::zero()).iter().all(|&x| x == 0));
}

#[test]
fn signature_bytes_are_s_then_e() {
    let sig = SchnorrSig {
        s: ECgFp5Scalar { limbs: [5, 0, 0, 0, 0] },
        e: ECgFp5Scalar { limbs: [0, 1, 0, 0, 0] },
    };
    let b = schnorr_sig_to_signature_bytes(&sig);
    assert_eq!(b[0], 5);
    assert!(b[1..40].iter().all(|&x| x == 0));
    assert_eq!(b[48], 1);
    assert_eq!(b.iter().filter(|&&x| x != 0).count(), 2);
}

#[test]
fn quintic_bytes_are_limbwise_little_endian() {
    let x = [
        GoldilocksField::from_canonical_u64(0x0102),
        GoldilocksField::from_canonical_u64(0),
        GoldilocksField::from_canonical_u64(0xff),
        GoldilocksField::from_canonical_u64(18446744069414584320),
        GoldilocksField::from_canonical_u64(1u64 << 56),
    ];
    let b = quintic_ext_to_fp5_bytes(&x);
    assert_eq!(&b[0..8], &[2, 1, 0, 0, 0, 0, 0, 0]);
    assert_eq!(&b[16..24], &[0xff, 0, 0, 0, 0, 0, 0, 0]);
    assert_eq!(&b[24..32], &18446744069414584320u64.to_le_bytes());
    assert_eq!(b[39], 1);
}

#[test]
fn default_signature_is_zero() {
    let sig = SchnorrSig::default();
    assert_eq!(sig.s.limbs, [0; 5]);
    assert_eq!(sig.e.limbs, [0; 5]);
}

#[test]
fn signature_target_new_allocates_twenty_limbs() {
    let mut builder = Builder::new();
    let _ = builder.add_virtual_target();
    let t = SchnorrSigTarget::new(&mut builder);
    assert_eq!(t.s.value.limbs.len(), 10);
    assert_eq!(t.e.value.limbs.len(), 10);
    assert_eq!(t.s.value.limbs[0].0.index, 1);
    assert_eq!(t.e.value.limbs[9].0.index, 20);
    assert_eq!(builder.num_targets, 21);
}

#[test]
fn signature_target_empty_has_no_limbs() {
    let mut builder = Builder::new();
    let t = SchnorrSigTarget::empty(&mut builder);
    assert!(t.s.value.limbs.is_empty());
    assert!(t.e.value.limbs.is_empty());
    assert_eq!(builder.num_targets, 0);
}

#[test]
fn set_signature_writes_u32_digits() {
    let mut builder = Builder::new();
    let t = SchnorrSigTarget::new(&mut builder);
    let sig = SchnorrSig {
        s: ECgFp5Scalar { limbs: [0x1_0000_0002, 0, 0, 0, 7] },
        e: ECgFp5Scalar { limbs: [9, 0, 0, 0, 0] },
    };
    let mut w = PartialWitness::new();
    w.set_schnorr_sig_target(&t, &sig).unwrap();
    let get = |i: usize, e: bool| {
        let l = if e { &t.e.value.limbs[i] } else { &t.s.value.limbs[i] };
        w.get_target(l.0).unwrap().to_canonical_u64()
    };
    assert_eq!(get(0, false), 2);
    assert_eq!(get(1, false), 1);
    assert_eq!(get(8, false), 7);
    assert_eq!(get(9, false), 0);
    assert_eq!(get(0, true), 9);
    assert_eq!(get(5, true), 0);
}

#[test]
fn set_signature_on_empty_target_fails_for_nonzero() {
    let mut builder = Builder::new();
    let t = SchnorrSigTarget::empty(&mut builder);
    let mut w = PartialWitness::new();
    assert!(w.set_schnorr_sig_target(&t, &SchnorrSig::zero()).is_ok());
    let sig = SchnorrSig { s: ECgFp5Scalar::one(), e: ECgFp5Scalar::zero() };
    assert!(w.set_schnorr_sig_target(&t, &sig).is_err());
}

/// The byte encoding of a signature, read back as little-endian 32-bit chunks, matches the
/// digits the circuit's signature wires receive; the field elements of the quintic
/// extension match their 8-byte chunks.
#[test]
fn test_p3_schnorr_encoding_equivalence() {
    let sig = SchnorrSig {
        s: ECgFp5Scalar { limbs: [0x0123_4567_89ab_cdef, 0xffff_ffff_0000_0001, 42, 0, 0x0fed_cba9_8765_4321] },
        e: ECgFp5Scalar { limbs: [7, 0, 0xdead_beef_cafe_f00d, 1, 0] },
    };
    let msg = [GoldilocksField::from_canonical_u64(11), GoldilocksField::from_canonical_u64(22),
        GoldilocksField::from_canonical_u64(18446744069414584320), GoldilocksField::from_canonical_u64(0),
        GoldilocksField::from_canonical_u64(1 << 40)];
    let pk = [GoldilocksField::from_canonical_u64(5), GoldilocksField::from_canonical_u64(6),
        GoldilocksField::from_canonical_u64(7), GoldilocksField::from_canonical_u64(8),
        GoldilocksField::from_canonical_u64(9)];

    // row from the byte encodings: digest(5) || s(10) || e(10) || pk(5)
    let from_fp5 = |x: &[GoldilocksField; 5]| -> Vec<u64> {
        let b = quintic_ext_to_fp5_bytes(x);
        (0..5).map(|i| u64::from_le_bytes(b[8 * i..8 * i + 8].try_into().unwrap())).collect()
    };
    let sig_bytes = schnorr_sig_to_signature_bytes(&sig);
    let mut encoded: Vec<u64> = from_fp5(&msg);
    for i in 0..20 {
        encoded.push(u32::from_le_bytes(sig_bytes[4 * i..4 * i + 4].try_into().unwrap()) as u64);
    }
    encoded.extend(from_fp5(&pk));

    // row from the circuit's wires
    let mut builder = Builder::new();
    let t = SchnorrSigTarget::new(&mut builder);
    let mut w = PartialWitness::new();
    w.set_schnorr_sig_target(&t, &sig).unwrap();
    let mut native: Vec<u64> = msg.iter().map(|x| x.to_canonical_u64()).collect();
    for l in t.s.value.limbs.iter().chain(t.e.value.limbs.iter()) {
        native.push(w.get_target(l.0).unwrap().to_canonical_u64());
    }
    native.extend(pk.iter().map(|x| x.to_canonical_u64()));

    assert_eq!(encoded.len(), 30);
    assert_eq!(encoded, native);
}
