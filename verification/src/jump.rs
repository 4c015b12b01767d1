use vstd::prelude::*;
use crate::field::{GoldilocksField, p};
use crate::circuit::{Target, value_at};
use crate::builder::{Builder, BuilderView, RelationView, all_relations_hold, relation_holds};

verus! {

/// Number of field elements a jump state spans among the public inputs.
pub const JUMP_STATE_SIZE: usize = 27;

/// The fields of a jump state, each hash as its four elements. `T` is a field value for a
/// state and a wire for its circuit counterpart.
#[verifier::ext_equal]
pub struct JumpStateView<T> {
    pub last_active_tx_index: T,
    pub prev_new_state_root: Seq<T>,
    pub prev_new_delta_root: Seq<T>,
    pub run_start_prev_index: T,
    pub run_start_old_state_root: Seq<T>,
    pub run_start_old_delta_root: Seq<T>,
    pub coverage_hash: Seq<T>,
    pub claims_hash: Seq<T>,
    pub tx_count: T,
}

/// Every hash of the state has four elements.
pub open spec fn jump_state_well_formed<T>(v: JumpStateView<T>) -> bool {
    &&& v.prev_new_state_root.len() == 4
    &&& v.prev_new_delta_root.len() == 4
    &&& v.run_start_old_state_root.len() == 4
    &&& v.run_start_old_delta_root.len() == 4
    &&& v.coverage_hash.len() == 4
    &&& v.claims_hash.len() == 4
}

/// The public-input layout of a jump state: its fields in declaration order, hashes spread
/// over four elements each.
pub open spec fn jump_state_flatten<T>(v: JumpStateView<T>) -> Seq<T> {
    seq![v.last_active_tx_index] + v.prev_new_state_root + v.prev_new_delta_root + seq![
        v.run_start_prev_index,
    ] + v.run_start_old_state_root + v.run_start_old_delta_root + v.coverage_hash + v.claims_hash
        + seq![v.tx_count]
}

/// Reading a jump state off its public-input layout.
pub open spec fn jump_state_parse<T>(s: Seq<T>) -> JumpStateView<T> {
    JumpStateView {
        last_active_tx_index: s[0],
        prev_new_state_root: s.subrange(1, 5),
        prev_new_delta_root: s.subrange(5, 9),
        run_start_prev_index: s[9],
        run_start_old_state_root: s.subrange(10, 14),
        run_start_old_delta_root: s.subrange(14, 18),
        coverage_hash: s.subrange(18, 22),
        claims_hash: s.subrange(22, 26),
        tx_count: s[26],
    }
}

/// Reading back the layout of a well-formed state gives that state.
pub proof fn lemma_jump_state_parse_flatten<T>(v: JumpStateView<T>)
    requires
        jump_state_well_formed(v),
    ensures
        jump_state_flatten(v).len() == JUMP_STATE_SIZE,
        jump_state_parse(jump_state_flatten(v)) =~= v,
{
    let s = jump_state_flatten(v);
    assert(s.subrange(1, 5) =~= v.prev_new_state_root);
    assert(s.subrange(5, 9) =~= v.prev_new_delta_root);
    assert(s.subrange(10, 14) =~= v.run_start_old_state_root);
    assert(s.subrange(14, 18) =~= v.run_start_old_delta_root);
    assert(s.subrange(18, 22) =~= v.coverage_hash);
    assert(s.subrange(22, 26) =~= v.claims_hash);
}

/// Any `JUMP_STATE_SIZE` elements read as a well-formed state whose layout is those elements.
pub proof fn lemma_jump_state_flatten_parse<T>(s: Seq<T>)
    requires
        s.len() == JUMP_STATE_SIZE,
    ensures
        jump_state_well_formed(jump_state_parse(s)),
        jump_state_flatten(jump_state_parse(s)) =~= s,
{
}

/// The view of every jump state is well formed.
pub proof fn lemma_jump_state_view_well_formed(s: JumpState)
    ensures
        jump_state_well_formed(s@),
{
}

/// A four-element hash digest.
#[derive(Clone, Copy, Debug)]
pub struct HashOut {
    pub elements: [GoldilocksField; 4],
}

impl View for HashOut {
    type V = Seq<nat>;

    open spec fn view(&self) -> Seq<nat> {
        self.elements@.map_values(|e: GoldilocksField| e@)
    }
}

impl HashOut {
    /// The all-zero digest.
    pub fn zero() -> (r: Self)
        ensures
            r@ == seq![0nat, 0nat, 0nat, 0nat],
    {
        let z = GoldilocksField::zero();
        let r = HashOut { elements: [z, z, z, z] };
        assert(r@ =~= seq![0nat, 0nat, 0nat, 0nat]);
        r
    }
}

/// The progress of a block's transaction chain as carried from proof to proof: the last
/// active transaction, the roots it left, where the current run started, the coverage and
/// claims accumulators and the transaction count.
#[derive(Clone, Copy, Debug)]
pub struct JumpState {
    pub last_active_tx_index: GoldilocksField,
    pub prev_new_state_root: HashOut,
    pub prev_new_delta_root: HashOut,
    pub run_start_prev_index: GoldilocksField,
    pub run_start_old_state_root: HashOut,
    pub run_start_old_delta_root: HashOut,
    pub coverage_hash: HashOut,
    pub claims_hash: HashOut,
    pub tx_count: GoldilocksField,
}

impl View for JumpState {
    type V = JumpStateView<nat>;

    open spec fn view(&self) -> JumpStateView<nat> {
        JumpStateView {
            last_active_tx_index: self.last_active_tx_index@,
            prev_new_state_root: self.prev_new_state_root@,
            prev_new_delta_root: self.prev_new_delta_root@,
            run_start_prev_index: self.run_start_prev_index@,
            run_start_old_state_root: self.run_start_old_state_root@,
            run_start_old_delta_root: self.run_start_old_delta_root@,
            coverage_hash: self.coverage_hash@,
            claims_hash: self.claims_hash@,
            tx_count: self.tx_count@,
        }
    }
}

impl JumpState {
    /// The state before any transaction: no active transaction and no run (index `-1`), both
    /// roots the given ones, zero accumulators and no transactions.
    pub fn initial(state_root: HashOut, delta_root: HashOut) -> (r: Self)
        ensures
            r@ == (JumpStateView {
                last_active_tx_index: (p() - 1) as nat,
                prev_new_state_root: state_root@,
                prev_new_delta_root: delta_root@,
                run_start_prev_index: (p() - 1) as nat,
                run_start_old_state_root: state_root@,
                run_start_old_delta_root: delta_root@,
                coverage_hash: seq![0nat, 0nat, 0nat, 0nat],
                claims_hash: seq![0nat, 0nat, 0nat, 0nat],
                tx_count: 0nat,
            }),
    {
        JumpState {
            last_active_tx_index: GoldilocksField::neg_one(),
            prev_new_state_root: state_root,
            prev_new_delta_root: delta_root,
            run_start_prev_index: GoldilocksField::neg_one(),
            run_start_old_state_root: state_root,
            run_start_old_delta_root: delta_root,
            coverage_hash: HashOut::zero(),
            claims_hash: HashOut::zero(),
            tx_count: GoldilocksField::zero(),
        }
    }

    /// Reads a state off exactly `JUMP_STATE_SIZE` public inputs.
    pub fn from_public_inputs(pis: &[GoldilocksField]) -> (r: Self)
        requires
            pis@.len() == JUMP_STATE_SIZE,
        ensures
            r@ == jump_state_parse(pis@.map_values(|e: GoldilocksField| e@)),
    {
        let r = JumpState {
            last_active_tx_index: pis[0],
            prev_new_state_root: HashOut { elements: [pis[1], pis[2], pis[3], pis[4]] },
            prev_new_delta_root: HashOut { elements: [pis[5], pis[6], pis[7], pis[8]] },
            run_start_prev_index: pis[9],
            run_start_old_state_root: HashOut { elements: [pis[10], pis[11], pis[12], pis[13]] },
            run_start_old_delta_root: HashOut { elements: [pis[14], pis[15], pis[16], pis[17]] },
            coverage_hash: HashOut { elements: [pis[18], pis[19], pis[20], pis[21]] },
            claims_hash: HashOut { elements: [pis[22], pis[23], pis[24], pis[25]] },
            tx_count: pis[26],
        };
        assert(r@ =~= jump_state_parse(pis@.map_values(|e: GoldilocksField| e@)));
        r
    }

    /// The state's public-input layout.
    pub fn to_vec(&self) -> (r: Vec<GoldilocksField>)
        ensures
            r@.len() == JUMP_STATE_SIZE,
            r@.map_values(|e: GoldilocksField| e@) == jump_state_flatten(self@),
    {
        let r = vec![
            self.last_active_tx_index,
            self.prev_new_state_root.elements[0],
            self.prev_new_state_root.elements[1],
            self.prev_new_state_root.elements[2],
            self.prev_new_state_root.elements[3],
            self.prev_new_delta_root.elements[0],
            self.prev_new_delta_root.elements[1],
            self.prev_new_delta_root.elements[2],
            self.prev_new_delta_root.elements[3],
            self.run_start_prev_index,
            self.run_start_old_state_root.elements[0],
            self.run_start_old_state_root.elements[1],
            self.run_start_old_state_root.elements[2],
            self.run_start_old_state_root.elements[3],
            self.run_start_old_delta_root.elements[0],
            self.run_start_old_delta_root.elements[1],
            self.run_start_old_delta_root.elements[2],
            self.run_start_old_delta_root.elements[3],
            self.coverage_hash.elements[0],
            self.coverage_hash.elements[1],
            self.coverage_hash.elements[2],
            self.coverage_hash.elements[3],
            self.claims_hash.elements[0],
            self.claims_hash.elements[1],
            self.claims_hash.elements[2],
            self.claims_hash.elements[3],
            self.tx_count,
        ];
        assert(r@.map_values(|e: GoldilocksField| e@) =~= jump_state_flatten(self@));
        r
    }
}

/// `n` consecutive wires numbered from `start`.
pub open spec fn fresh_wires(start: nat, n: nat) -> Seq<Target> {
    Seq::new(n, |i: int| Target { index: (start + i) as usize })
}

/// The four wires of a hash digest.
#[derive(Clone, Copy, Debug)]
pub struct HashOutTarget {
    pub elements: [Target; 4],
}

impl View for HashOutTarget {
    type V = Seq<Target>;

    open spec fn view(&self) -> Seq<Target> {
        self.elements@
    }
}

/// Four fresh wires for a digest.
fn add_virtual_hash(builder: &mut Builder) -> (r: HashOutTarget)
    requires
        old(builder).num_targets + 4 <= usize::MAX,
    ensures
        r@ == fresh_wires(old(builder)@.num_targets, 4),
        final(builder)@ =~= (BuilderView { num_targets: old(builder)@.num_targets + 4, ..old(builder)@ }),
{
    let a = builder.add_virtual_target();
    let b = builder.add_virtual_target();
    let c = builder.add_virtual_target();
    let d = builder.add_virtual_target();
    let r = HashOutTarget { elements: [a, b, c, d] };
    assert(r@ =~= fresh_wires(old(builder)@.num_targets, 4));
    r
}

/// The wires of a jump state.
#[derive(Clone, Copy, Debug)]
pub struct JumpStateTarget {
    pub last_active_tx_index: Target,
    pub prev_new_state_root: HashOutTarget,
    pub prev_new_delta_root: HashOutTarget,
    pub run_start_prev_index: Target,
    pub run_start_old_state_root: HashOutTarget,
    pub run_start_old_delta_root: HashOutTarget,
    pub coverage_hash: HashOutTarget,
    pub claims_hash: HashOutTarget,
    pub tx_count: Target,
}

impl View for JumpStateTarget {
    type V = JumpStateView<Target>;

    open spec fn view(&self) -> JumpStateView<Target> {
        JumpStateView {
            last_active_tx_index: self.last_active_tx_index,
            prev_new_state_root: self.prev_new_state_root@,
            prev_new_delta_root: self.prev_new_delta_root@,
            run_start_prev_index: self.run_start_prev_index,
            run_start_old_state_root: self.run_start_old_state_root@,
            run_start_old_delta_root: self.run_start_old_delta_root@,
            coverage_hash: self.coverage_hash@,
            claims_hash: self.claims_hash@,
            tx_count: self.tx_count,
        }
    }
}

impl Default for JumpStateTarget {
    /// Every field on wire 0, a placeholder to be overwritten.
    fn default() -> (r: Self)
        ensures
            r@ == jump_state_parse(Seq::new(27, |i: int| Target { index: 0 })),
    {
        let t = Target { index: 0 };
        let h = HashOutTarget { elements: [t, t, t, t] };
        let r = JumpStateTarget {
            last_active_tx_index: t,
            prev_new_state_root: h,
            prev_new_delta_root: h,
            run_start_prev_index: t,
            run_start_old_state_root: h,
            run_start_old_delta_root: h,
            coverage_hash: h,
            claims_hash: h,
            tx_count: t,
        };
        assert(r@ =~= jump_state_parse(Seq::new(27, |i: int| Target { index: 0 })));
        r
    }
}

impl JumpStateTarget {
    /// Fresh wires for every field, numbered in public-input order.
    pub fn new(builder: &mut Builder) -> (r: Self)
        requires
            old(builder).num_targets + JUMP_STATE_SIZE <= usize::MAX,
        ensures
            r@ == jump_state_parse(fresh_wires(old(builder)@.num_targets, 27)),
            final(builder)@ =~= (BuilderView { num_targets: old(builder)@.num_targets + 27, ..old(builder)@ }),
    {
        let last_active_tx_index = builder.add_virtual_target();
        let prev_new_state_root = add_virtual_hash(builder);
        let prev_new_delta_root = add_virtual_hash(builder);
        let run_start_prev_index = builder.add_virtual_target();
        let run_start_old_state_root = add_virtual_hash(builder);
        let run_start_old_delta_root = add_virtual_hash(builder);
        let coverage_hash = add_virtual_hash(builder);
        let claims_hash = add_virtual_hash(builder);
        let tx_count = builder.add_virtual_target();
        let r = JumpStateTarget {
            last_active_tx_index,
            prev_new_state_root,
            prev_new_delta_root,
            run_start_prev_index,
            run_start_old_state_root,
            run_start_old_delta_root,
            coverage_hash,
            claims_hash,
            tx_count,
        };
        assert(r@ =~= jump_state_parse(fresh_wires(old(builder)@.num_targets, 27)));
        r
    }

    /// The wires in public-input order.
    fn wires(&self) -> (r: Vec<Target>)
        ensures
            r@ == jump_state_flatten(self@),
    {
        let r = vec![
            self.last_active_tx_index,
            self.prev_new_state_root.elements[0],
            self.prev_new_state_root.elements[1],
            self.prev_new_state_root.elements[2],
            self.prev_new_state_root.elements[3],
            self.prev_new_delta_root.elements[0],
            self.prev_new_delta_root.elements[1],
            self.prev_new_delta_root.elements[2],
            self.prev_new_delta_root.elements[3],
            self.run_start_prev_index,
            self.run_start_old_state_root.elements[0],
            self.run_start_old_state_root.elements[1],
            self.run_start_old_state_root.elements[2],
            self.run_start_old_state_root.elements[3],
            self.run_start_old_delta_root.elements[0],
            self.run_start_old_delta_root.elements[1],
            self.run_start_old_delta_root.elements[2],
            self.run_start_old_delta_root.elements[3],
            self.coverage_hash.elements[0],
            self.coverage_hash.elements[1],
            self.coverage_hash.elements[2],
            self.coverage_hash.elements[3],
            self.claims_hash.elements[0],
            self.claims_hash.elements[1],
            self.claims_hash.elements[2],
            self.claims_hash.elements[3],
            self.tx_count,
        ];
        assert(r@ =~= jump_state_flatten(self@));
        r
    }

    /// Makes every wire public, in public-input order.
    pub fn register_public_inputs(&self, builder: &mut Builder)
        ensures
            final(builder)@ =~= (BuilderView {
                public_inputs: old(builder)@.public_inputs + jump_state_flatten(self@),
                ..old(builder)@
            }),
    {
        let ws = self.wires();
        let mut i: usize = 0;
        while i < ws.len()
            invariant
                0 <= i <= ws@.len(),
                ws@ == jump_state_flatten(self@),
                builder@ =~= (BuilderView {
                    public_inputs: old(builder)@.public_inputs + ws@.take(i as int),
                    ..old(builder)@
                }),
            decreases ws.len() - i,
        {
            builder.register_public_input(ws[i]);
            assert(ws@.take(i + 1) =~= ws@.take(i as int).push(ws@[i as int]));
            i = i + 1;
        }
        assert(ws@.take(ws@.len() as int) =~= ws@);
    }

    /// Fresh wires for every field, made public in order.
    pub fn new_public(builder: &mut Builder) -> (r: Self)
        requires
            old(builder).num_targets + JUMP_STATE_SIZE <= usize::MAX,
        ensures
            r@ == jump_state_parse(fresh_wires(old(builder)@.num_targets, 27)),
            final(builder)@ =~= (BuilderView {
                num_targets: old(builder)@.num_targets + 27,
                public_inputs: old(builder)@.public_inputs + fresh_wires(old(builder)@.num_targets, 27),
                ..old(builder)@
            }),
    {
        let state = Self::new(builder);
        proof {
            lemma_jump_state_flatten_parse(fresh_wires(old(builder)@.num_targets, 27));
        }
        state.register_public_inputs(builder);
        state
    }

    /// Reads the wires of a state off exactly `JUMP_STATE_SIZE` public-input wires.
    pub fn from_public_inputs(pis: &[Target]) -> (r: Self)
        requires
            pis@.len() == JUMP_STATE_SIZE,
        ensures
            r@ == jump_state_parse(pis@),
    {
        let r = JumpStateTarget {
            last_active_tx_index: pis[0],
            prev_new_state_root: HashOutTarget { elements: [pis[1], pis[2], pis[3], pis[4]] },
            prev_new_delta_root: HashOutTarget { elements: [pis[5], pis[6], pis[7], pis[8]] },
            run_start_prev_index: pis[9],
            run_start_old_state_root: HashOutTarget { elements: [pis[10], pis[11], pis[12], pis[13]] },
            run_start_old_delta_root: HashOutTarget { elements: [pis[14], pis[15], pis[16], pis[17]] },
            coverage_hash: HashOutTarget { elements: [pis[18], pis[19], pis[20], pis[21]] },
            claims_hash: HashOutTarget { elements: [pis[22], pis[23], pis[24], pis[25]] },
            tx_count: pis[26],
        };
        assert(r@ =~= jump_state_parse(pis@));
        r
    }

    /// Constrains every wire of `a` to equal the matching wire of `b`.
    pub fn connect(builder: &mut Builder, a: &Self, b: &Self)
        ensures
            final(builder)@ =~= (BuilderView {
                relations: old(builder)@.relations + Seq::new(
                    27,
                    |i: int|
                        RelationView::Connect {
                            a: jump_state_flatten(a@)[i],
                            b: jump_state_flatten(b@)[i],
                        },
                ),
                ..old(builder)@
            }),
    {
        let wa = a.wires();
        let wb = b.wires();
        let ghost added = Seq::new(
            27,
            |i: int| RelationView::Connect { a: wa@[i], b: wb@[i] },
        );
        let mut i: usize = 0;
        while i < wa.len()
            invariant
                0 <= i <= wa@.len(),
                wa@.len() == 27,
                wb@.len() == 27,
                wa@ == jump_state_flatten(a@),
                wb@ == jump_state_flatten(b@),
                added == Seq::new(27, |i: int| RelationView::Connect { a: wa@[i], b: wb@[i] }),
                builder@ =~= (BuilderView {
                    relations: old(builder)@.relations + added.take(i as int),
                    ..old(builder)@
                }),
            decreases wa.len() - i,
        {
            builder.connect(wa[i], wb[i]);
            assert(added.take(i + 1) =~= added.take(i as int).push(added[i as int]));
            i = i + 1;
        }
        assert(added.take(27) =~= added);
    }
}

/// Once two jump states are connected, every witness that satisfies the builder's
/// constraints gives the two states the same values, field by field.
pub proof fn lemma_jump_state_connect_values(
    s: BuilderView,
    w: Seq<Option<nat>>,
    a: JumpStateView<Target>,
    b: JumpStateView<Target>,
)
    requires
        jump_state_well_formed(a),
        jump_state_well_formed(b),
        all_relations_hold(s, w),
        forall|i: int|
            0 <= i < JUMP_STATE_SIZE ==> s.relations.contains(
                RelationView::Connect { a: jump_state_flatten(a)[i], b: jump_state_flatten(b)[i] },
            ),
    ensures
        forall|i: int|
            0 <= i < JUMP_STATE_SIZE ==> value_at(w, #[trigger] jump_state_flatten(a)[i].index as int)
                is Some && value_at(w, jump_state_flatten(a)[i].index as int) == value_at(
                w,
                jump_state_flatten(b)[i].index as int,
            ),
{
    assert forall|i: int| 0 <= i < JUMP_STATE_SIZE implies value_at(
        w,
        #[trigger] jump_state_flatten(a)[i].index as int,
    ) is Some && value_at(w, jump_state_flatten(a)[i].index as int) == value_at(
        w,
        jump_state_flatten(b)[i].index as int,
    ) by {
        let c = RelationView::Connect { a: jump_state_flatten(a)[i], b: jump_state_flatten(b)[i] };
        assert(s.relations.contains(c));
        let k = choose|k: int| 0 <= k < s.relations.len() && s.relations[k] == c;
        assert(relation_holds(s.relations[k], w));
    }
}

} // verus!
