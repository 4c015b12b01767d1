use lighter_circuit::builder::{Builder, Relation};
use lighter_circuit::field::GoldilocksField;
use lighter_circuit::circuit::Target;
use lighter_circuit::jump::{HashOut, JumpState, JumpStateTarget, JUMP_STATE_SIZE};

const P: u64 = 18446744069414584321;

fn f(x: u64) -> GoldilocksField {
    GoldilocksField::from_canonical_u64(x)
}

fn hash(a: u64) -> HashOut {
    HashOut { elements: [f(a), f(a + 1), f(a + 2), f(a + 3)] }
}

fn canon(v: &[GoldilocksField]) -> Vec<u64> {
    v.iter().map(|x| x.to_canonical_u64()).collect()
}

#[test]
fn jump_state_initial_values() {
    let s = JumpState::initial(hash(10), hash(20));
    let v = canon(&s.to_vec());
    assert_eq!(v.len(), JUMP_STATE_SIZE);
    assert_eq!(v[0], P - 1);
    assert_eq!(&v[1..5], &[10, 11, 12, 13]);
    assert_eq!(&v[5..9], &[20, 21, 22, 23]);
    assert_eq!(v[9], P - 1);
    assert_eq!(&v[10..14], &[10, 11, 12, 13]);
    assert_eq!(&v[14..18], &[20, 21, 22, 23]);
    assert_eq!(&v[18..26], &[0; 8]);
    assert_eq!(v[26], 0);
}

#[test]
fn jump_state_public_inputs_round_trip() {
    let pis: Vec<GoldilocksField> = (0..27u64).map(|i| f(i * 7 + 1)).collect();
    let s = JumpState::from_public_inputs(&pis);
    assert_eq!(s.last_active_tx_index.to_canonical_u64(), 1);
    assert_eq!(s.prev_new_state_root.elements[0].to_canonical_u64(), 8);
    assert_eq!(s.run_start_prev_index.to_canonical_u64(), 64);
    assert_eq!(s.claims_hash.elements[3].to_canonical_u64(), 7 * 25 + 1);
    assert_eq!(s.tx_count.to_canonical_u64(), 7 * 26 + 1);
    assert_eq!(canon(&s.to_vec()), canon(&pis));
}

#[test]
fn jump_state_to_vec_then_parse() {
    let mut s = JumpState::initial(hash(1), hash(5));
    s.tx_count = f(3);
    s.coverage_hash = hash(100);
    let t = JumpState::from_public_inputs(&s.to_vec());
    assert_eq!(canon(&t.to_vec()), canon(&s.to_vec()));
    assert_eq!(t.coverage_hash.elements[2].to_canonical_u64(), 102);
}

#[test]
fn jump_state_target_new_public() {
    let mut builder = Builder::new();
    builder.add_virtual_target();
    let t = JumpStateTarget::new_public(&mut builder);
    assert_eq!(builder.num_targets, 28);
    assert_eq!(t.last_active_tx_index.index, 1);
    assert_eq!(t.prev_new_state_root.elements[3].index, 5);
    assert_eq!(t.tx_count.index, 27);
    let idx: Vec<usize> = builder.public_inputs.iter().map(|x| x.index).collect();
    assert_eq!(idx, (1..28).collect::<Vec<usize>>());
}

#[test]
fn jump_state_target_from_public_inputs_matches_new() {
    let mut builder = Builder::new();
    let t = JumpStateTarget::new_public(&mut builder);
    let u = JumpStateTarget::from_public_inputs(&builder.public_inputs);
    assert_eq!(u.coverage_hash.elements, t.coverage_hash.elements);
    assert_eq!(u.run_start_old_delta_root.elements, t.run_start_old_delta_root.elements);
    assert_eq!(u.tx_count, t.tx_count);
}

#[test]
fn jump_state_target_connect_pairs_every_wire() {
    let mut builder = Builder::new();
    let a = JumpStateTarget::new(&mut builder);
    let b = JumpStateTarget::new(&mut builder);
    JumpStateTarget::connect(&mut builder, &a, &b);
    assert_eq!(builder.relations.len(), 27);
    for (i, r) in builder.relations.iter().enumerate() {
        match r {
            Relation::Connect { a: x, b: y } => {
                assert_eq!(x.index, i);
                assert_eq!(y.index, i + 27);
            }
            _ => panic!("expected a copy constraint"),
        }
    }
}

#[test]
fn jump_state_target_default_is_wire_zero() {
    let t = JumpStateTarget::default();
    assert_eq!(t.last_active_tx_index, Target { index: 0 });
    assert_eq!(t.claims_hash.elements, [Target { index: 0 }; 4]);
}
