use lighter_circuit::builder::{Builder, Relation};
use lighter_circuit::circuit::{PartialWitness, WitnessError};
use lighter_circuit::delta::{MarketDeltaLeaf, MarketDeltaLeafTarget, MarketDeltaLeafTargetWitness};
use lighter_circuit::field::GoldilocksField;

const P: u64 = 18446744069414584321;

fn sample_leaf() -> MarketDeltaLeaf {
    MarketDeltaLeaf {
        market_index: 7,
        public_market_index: -3,
        status: 2,
        price: 123456,
        settlement_cap: 99,
        quote_extension_multiplier: 1000,
    }
}

#[test]
fn market_delta_new_numbers_wires_in_field_order() {
    let mut builder = Builder::new();
    builder.add_virtual_target();
    let t = MarketDeltaLeafTarget::new(&mut builder);
    assert_eq!(t.market_index.index, 1);
    assert_eq!(t.public_market_index.index, 2);
    assert_eq!(t.status.index, 3);
    assert_eq!(t.price.index, 4);
    assert_eq!(t.settlement_cap.index, 5);
    assert_eq!(t.quote_extension_multiplier.index, 6);
    assert_eq!(builder.num_targets, 7);
    assert!(builder.relations.is_empty());
}

#[test]
fn market_delta_pack_adds_two_constants_and_two_mul_adds() {
    let mut builder = Builder::new();
    let t = MarketDeltaLeafTarget::new(&mut builder);
    let r = t.pack(&mut builder);
    assert_eq!(r[1].index, t.public_market_index.index);
    assert_eq!(r[2].index, t.settlement_cap.index);
    assert_eq!(r[3].index, t.quote_extension_multiplier.index);
    assert_eq!(builder.constants.len(), 2);
    assert_eq!(builder.constants[0].0, 4096);
    assert_eq!(builder.constants[1].0, 16384);
    assert_eq!(builder.relations.len(), 4);
    match builder.relations[3] {
        Relation::MulAdd { out, .. } => assert_eq!(out.index, r[0].index),
        _ => panic!("expected a multiply-add"),
    }
}

#[test]
fn market_delta_pack_twice_reuses_constants() {
    let mut builder = Builder::new();
    let t = MarketDeltaLeafTarget::new(&mut builder);
    t.pack(&mut builder);
    t.pack(&mut builder);
    assert_eq!(builder.constants.len(), 2);
    assert_eq!(builder.relations.len(), 6);
}

#[test]
fn market_delta_witness_writes_values() {
    let mut builder = Builder::new();
    let t = MarketDeltaLeafTarget::new(&mut builder);
    let mut w = PartialWitness::new();
    w.set_market_delta_leaf_target(&t, &sample_leaf()).unwrap();
    let get = |x| w.get_target(x).unwrap().to_canonical_u64();
    assert_eq!(get(t.market_index), 7);
    assert_eq!(get(t.public_market_index), P - 3);
    assert_eq!(get(t.status), 2);
    assert_eq!(get(t.price), 123456);
    assert_eq!(get(t.settlement_cap), 99);
    assert_eq!(get(t.quote_extension_multiplier), 1000);
}

#[test]
fn market_delta_witness_conflict_is_an_error() {
    let mut builder = Builder::new();
    let t = MarketDeltaLeafTarget::new(&mut builder);
    let mut w = PartialWitness::new();
    w.set_target(t.price, GoldilocksField::from_canonical_u64(5)).unwrap();
    let r = w.set_market_delta_leaf_target(&t, &sample_leaf());
    assert!(matches!(r, Err(WitnessError::ConflictingValue)));
}

#[test]
fn market_delta_default_is_zero() {
    let d = MarketDeltaLeaf::default();
    assert_eq!(d.market_index, 0);
    assert_eq!(d.public_market_index, 0);
    assert_eq!(d.status, 0);
    assert_eq!(d.price, 0);
    assert_eq!(d.settlement_cap, 0);
    assert_eq!(d.quote_extension_multiplier, 0);
}

/// Fills the wires that constants and multiply-adds determine, in recording order.
fn evaluate(builder: &Builder, w: &mut PartialWitness) {
    for r in builder.relations.iter() {
        match r {
            Relation::Constant { target, value } => {
                w.set_target(*target, GoldilocksField::from_canonical_u64(*value)).unwrap();
            }
            Relation::MulAdd { x, y, z, out } => {
                let v = w.get_target(*x).unwrap().mul(&w.get_target(*y).unwrap()).add(&w.get_target(*z).unwrap());
                w.set_target(*out, v).unwrap();
            }
            _ => {}
        }
    }
}

#[test]
fn market_delta_packed_word_carries_slot_status_and_price() {
    let mut builder = Builder::new();
    let t = MarketDeltaLeafTarget::new(&mut builder);
    let r = t.pack(&mut builder);
    let mut w = PartialWitness::new();
    let leaf = sample_leaf();
    w.set_market_delta_leaf_target(&t, &leaf).unwrap();
    evaluate(&builder, &mut w);
    let word = w.get_target(r[0]).unwrap().to_canonical_u64();
    assert_eq!(word, 7 + 2 * 4096 + 123456 * 16384);
    assert_eq!(word % 4096, 7);
    assert_eq!((word / 4096) % 4, 2);
    assert_eq!(word / 16384, 123456);
    assert_eq!(w.get_target(r[1]).unwrap().to_canonical_u64(), P - 3);
    assert_eq!(w.get_target(r[2]).unwrap().to_canonical_u64(), 99);
    assert_eq!(w.get_target(r[3]).unwrap().to_canonical_u64(), 1000);
}
