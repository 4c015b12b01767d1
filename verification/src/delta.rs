use vstd::prelude::*;
use vstd::arithmetic::div_mod::*;
use crate::field::{GoldilocksField, p, to_field, lemma_to_field_small};
use crate::circuit::{
    Target, PartialWitness, WitnessError, value_at, extends, targets_hold, targets_unset,
    distinct_targets,
};
use crate::builder::{
    Builder, BuilderView, RelationView, constant_wire, constants_recorded, all_relations_hold,
    lemma_constants_recorded_push, lemma_constant_value, relation_holds,
};

verus! {

/// Number of field elements a market delta packs into.
pub const MARKET_DELTA_LIMBS: usize = 4;

/// Bits of the market slot index in the packed word.
pub const MARKET_INDEX_BITS: u64 = 12;

/// Bits of the market status in the packed word.
pub const MARKET_SLOT_STATUS_BITS: u64 = 2;

/// A market lifecycle event published in the blob: slot, public index, status, price,
/// settlement cap and quote extension multiplier. The slot, status and price share one word
/// packed as `slot | status << 12 | price << 14`.
#[derive(Clone, Copy, Debug)]
pub struct MarketDeltaLeaf {
    pub market_index: u16,
    pub public_market_index: i64,
    pub status: u8,
    pub price: u32,
    pub settlement_cap: u32,
    pub quote_extension_multiplier: i64,
}

impl Default for MarketDeltaLeaf {
    fn default() -> (r: Self)
        ensures
            r.market_index == 0 && r.public_market_index == 0 && r.status == 0 && r.price == 0
                && r.settlement_cap == 0 && r.quote_extension_multiplier == 0,
    {
        MarketDeltaLeaf {
            market_index: 0,
            public_market_index: 0,
            status: 0,
            price: 0,
            settlement_cap: 0,
            quote_extension_multiplier: 0,
        }
    }
}

/// The wires of a market delta.
#[derive(Clone, Copy, Debug)]
pub struct MarketDeltaLeafTarget {
    pub market_index: Target,
    pub public_market_index: Target,
    pub status: Target,
    pub price: Target,
    pub settlement_cap: Target,
    pub quote_extension_multiplier: Target,
}

/// The wires in field order.
pub open spec fn market_delta_targets(t: MarketDeltaLeafTarget) -> Seq<Target> {
    seq![
        t.market_index,
        t.public_market_index,
        t.status,
        t.price,
        t.settlement_cap,
        t.quote_extension_multiplier,
    ]
}

/// The field values of a market delta, in the order of [`market_delta_targets`].
pub open spec fn market_delta_values(leaf: MarketDeltaLeaf) -> Seq<nat> {
    seq![
        leaf.market_index as nat,
        to_field(leaf.public_market_index as int),
        leaf.status as nat,
        leaf.price as nat,
        leaf.settlement_cap as nat,
        to_field(leaf.quote_extension_multiplier as int),
    ]
}

/// The packed first word: `market_index + 2^12 * status + 2^14 * price`.
pub open spec fn packed_word(market_index: nat, status: nat, price: nat) -> nat {
    market_index + 4096 * status + 16384 * price
}

/// The builder holds the two shift constants and the two multiply-add constraints that pack
/// `t` into `r`; the other three words are wires of `t` themselves.
pub open spec fn packed_by(s: BuilderView, t: MarketDeltaLeafTarget, r: Seq<Target>) -> bool {
    &&& r.len() == 4
    &&& r[1] == t.public_market_index
    &&& r[2] == t.settlement_cap
    &&& r[3] == t.quote_extension_multiplier
    &&& exists|ss: Target, ps: Target, limb: Target|
        {
            &&& constant_wire(s.constants, 4096, ss)
            &&& constant_wire(s.constants, 16384, ps)
            &&& s.relations.contains(
                RelationView::MulAdd { x: ss, y: t.status, z: t.market_index, out: limb },
            )
            &&& s.relations.contains(RelationView::MulAdd { x: ps, y: t.price, z: limb, out: r[0] })
        }
}

proof fn lemma_constant_wire_kept(c: Seq<(u64, Target)>, c2: Seq<(u64, Target)>, v: nat, t: Target)
    requires
        constant_wire(c, v, t),
        c2.len() >= c.len(),
        forall|i: int| 0 <= i < c.len() ==> c2[i] == c[i],
    ensures
        constant_wire(c2, v, t),
{
    let i = choose|i: int| 0 <= i < c.len() && #[trigger] c[i] == (v as u64, t) && c[i].0 as nat == v;
    assert(c2[i] == c[i]);
}

impl MarketDeltaLeafTarget {
    /// Six fresh wires.
    pub fn new(builder: &mut Builder) -> (r: Self)
        requires
            old(builder).num_targets + 6 <= usize::MAX,
        ensures
            market_delta_targets(r) == Seq::new(
                6,
                |i: int| Target { index: (old(builder).num_targets + i) as usize },
            ),
            final(builder)@ =~= (BuilderView {
                num_targets: old(builder)@.num_targets + 6,
                ..old(builder)@
            }),
    {
        let market_index = builder.add_virtual_target();
        let public_market_index = builder.add_virtual_target();
        let status = builder.add_virtual_target();
        let price = builder.add_virtual_target();
        let settlement_cap = builder.add_virtual_target();
        let quote_extension_multiplier = builder.add_virtual_target();
        let r = MarketDeltaLeafTarget {
            market_index,
            public_market_index,
            status,
            price,
            settlement_cap,
            quote_extension_multiplier,
        };
        assert(market_delta_targets(r) =~= Seq::new(
            6,
            |i: int| Target { index: (old(builder).num_targets + i) as usize },
        ));
        r
    }

    /// Packs the delta into four words: `market_index | status << 12 | price << 14`, the
    /// public market index, the settlement cap and the quote extension multiplier.
    pub fn pack(&self, builder: &mut Builder) -> (r: [Target; 4])
        requires
            old(builder).num_targets + 4 <= usize::MAX,
        ensures
            packed_by(final(builder)@, *self, r@),
            constants_recorded(old(builder)@) ==> constants_recorded(final(builder)@),
    {
        let status_shifter = builder.constant(GoldilocksField::from_canonical_u64(4096));
        let ghost s1 = builder@;
        let price_shifter = builder.constant(GoldilocksField::from_canonical_u64(16384));
        let ghost s2 = builder@;
        proof {
            lemma_constant_wire_kept(s1.constants, s2.constants, 4096, status_shifter);
        }
        let limb = builder.mul_add(status_shifter, self.status, self.market_index);
        let ghost s3 = builder@;
        let word = builder.mul_add(price_shifter, self.price, limb);
        let r = [word, self.public_market_index, self.settlement_cap, self.quote_extension_multiplier];
        proof {
            let s4 = builder@;
            let m1 = RelationView::MulAdd { x: status_shifter, y: self.status, z: self.market_index, out: limb };
            let m2 = RelationView::MulAdd { x: price_shifter, y: self.price, z: limb, out: word };
            assert(s4.relations[s4.relations.len() - 2] == m1);
            assert(s4.relations[s4.relations.len() - 1] == m2);
            assert(s4.relations.contains(m1));
            assert(s4.relations.contains(m2));
            assert(constant_wire(s4.constants, 4096, status_shifter));
            assert(constant_wire(s4.constants, 16384, price_shifter));
            if constants_recorded(old(builder)@) {
                lemma_constants_recorded_push(s2, m1, s3.num_targets);
                lemma_constants_recorded_push(s3, m2, s4.num_targets);
            }
            assert(r@[0] == word);
        }
        r
    }
}

/// Assigning a market delta's values to its wires.
pub trait MarketDeltaLeafTargetWitness {
    fn set_market_delta_leaf_target(&mut self, a: &MarketDeltaLeafTarget, b: &MarketDeltaLeaf) -> Result<
        (),
        WitnessError,
    >;
}

impl MarketDeltaLeafTargetWitness for PartialWitness {
    /// Writes the six field values of `b` into the wires of `a`; the signed fields map
    /// negative values to `p - |v|`.
    fn set_market_delta_leaf_target(&mut self, a: &MarketDeltaLeafTarget, b: &MarketDeltaLeaf) -> (r: Result<
        (),
        WitnessError,
    >)
        ensures
            extends(old(self)@, final(self)@),
            r is Ok ==> targets_hold(final(self)@, market_delta_targets(*a), market_delta_values(*b)),
            targets_unset(old(self)@, market_delta_targets(*a)) && distinct_targets(
                market_delta_targets(*a),
            ) ==> r is Ok,
    {
        let targets = vec![
            a.market_index,
            a.public_market_index,
            a.status,
            a.price,
            a.settlement_cap,
            a.quote_extension_multiplier,
        ];
        let values = vec![
            GoldilocksField::from_canonical_u16(b.market_index),
            GoldilocksField::from_noncanonical_i64(b.public_market_index),
            GoldilocksField::from_canonical_u8(b.status),
            GoldilocksField::from_canonical_u32(b.price),
            GoldilocksField::from_canonical_u32(b.settlement_cap),
            GoldilocksField::from_noncanonical_i64(b.quote_extension_multiplier),
        ];
        assert(targets@ =~= market_delta_targets(*a));
        assert(values@.map_values(|v: GoldilocksField| v@) =~= market_delta_values(*b));
        self.set_targets(&targets, &values)
    }
}

/// A packed word holds the market slot in its low 12 bits, the status in the next 2 and the
/// price above them, and reading those fields back gives the packed values.
pub proof fn lemma_market_delta_unpack(market_index: nat, status: nat, price: nat)
    requires
        market_index < 4096,
        status < 4,
        price < 4294967296,
    ensures
        packed_word(market_index, status, price) < p(),
        packed_word(market_index, status, price) % 4096 == market_index,
        (packed_word(market_index, status, price) / 4096) % 4 == status,
        packed_word(market_index, status, price) / 16384 == price,
{
    let w = packed_word(market_index, status, price);
    lemma_fundamental_div_mod_converse(w as int, 4096, (status + 4 * price) as int, market_index as int);
    lemma_fundamental_div_mod_converse((status + 4 * price) as int, 4, price as int, status as int);
    lemma_fundamental_div_mod_converse(w as int, 16384, price as int, (market_index + 4096 * status) as int);
}

/// Whatever witness satisfies the builder's constraints, a packed market delta's first word
/// carries `market_index + status * 2^12 + price * 2^14` of the values on its wires.
pub proof fn lemma_pack_value(
    s: BuilderView,
    w: Seq<Option<nat>>,
    t: MarketDeltaLeafTarget,
    r: Seq<Target>,
    leaf: MarketDeltaLeaf,
)
    requires
        constants_recorded(s),
        all_relations_hold(s, w),
        packed_by(s, t, r),
        targets_hold(w, market_delta_targets(t), market_delta_values(leaf)),
        leaf.market_index < 4096,
        leaf.status < 4,
    ensures
        value_at(w, r[0].index as int) == Some(
            packed_word(leaf.market_index as nat, leaf.status as nat, leaf.price as nat),
        ),
        value_at(w, r[1].index as int) == Some(to_field(leaf.public_market_index as int)),
        value_at(w, r[2].index as int) == Some(leaf.settlement_cap as nat),
        value_at(w, r[3].index as int) == Some(to_field(leaf.quote_extension_multiplier as int)),
{
    let (ss, ps, limb) = choose|ss: Target, ps: Target, limb: Target|
        {
            &&& constant_wire(s.constants, 4096, ss)
            &&& constant_wire(s.constants, 16384, ps)
            &&& s.relations.contains(
                RelationView::MulAdd { x: ss, y: t.status, z: t.market_index, out: limb },
            )
            &&& s.relations.contains(RelationView::MulAdd { x: ps, y: t.price, z: limb, out: r[0] })
        };
    lemma_constant_value(s, w, 4096, ss);
    lemma_constant_value(s, w, 16384, ps);
    let m1 = RelationView::MulAdd { x: ss, y: t.status, z: t.market_index, out: limb };
    let m2 = RelationView::MulAdd { x: ps, y: t.price, z: limb, out: r[0] };
    let i1 = choose|i: int| 0 <= i < s.relations.len() && s.relations[i] == m1;
    let i2 = choose|i: int| 0 <= i < s.relations.len() && s.relations[i] == m2;
    assert(relation_holds(s.relations[i1], w));
    assert(relation_holds(s.relations[i2], w));
    let tv = market_delta_targets(t);
    assert(tv[0] == t.market_index && tv[2] == t.status && tv[3] == t.price);
    assert(tv[1] == t.public_market_index && tv[4] == t.settlement_cap && tv[5] == t.quote_extension_multiplier);
    let mi = leaf.market_index as nat;
    let st = leaf.status as nat;
    let pr = leaf.price as nat;
    assert(value_at(w, t.market_index.index as int) == Some(mi));
    assert(value_at(w, t.status.index as int) == Some(st));
    assert(value_at(w, t.price.index as int) == Some(pr));
    lemma_to_field_small((4096 * st + mi) as int);
    assert(value_at(w, limb.index as int) == Some((mi + 4096 * st) as nat));
    lemma_market_delta_unpack(mi, st, pr);
    assert(packed_word(mi, st, pr) < p());
    assert(packed_word(mi, st, pr) == 16384 * pr + (mi + 4096 * st));
    lemma_to_field_small((16384 * pr + (mi + 4096 * st)) as int);
}

} // verus!
