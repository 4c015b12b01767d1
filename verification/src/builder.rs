use vstd::prelude::*;
use crate::field::{GoldilocksField, p, to_field};
use crate::limbs::radix;
use crate::circuit::{
    Target, BoolTarget, U32Target, BigUintTarget, limbs_set, limbs_val, value_at, fresh_limbs,
};

verus! {

/// A constraint recorded by the builder, over wires.
#[allow(inconsistent_fields)]
pub enum Relation {
    /// `target` holds the field value `value`.
    Constant { target: Target, value: u64 },
    /// `div` and `rem` are the quotient and remainder of `a` by `b`; both are zero when `b` is zero.
    DivRem { a: BigUintTarget, b: BigUintTarget, div: BigUintTarget, rem: BigUintTarget },
    /// `out` is the quotient rounded up (`div`, plus one when `rem` is nonzero); it is `a` when `b` is zero.
    CeilDiv {
        a: BigUintTarget,
        b: BigUintTarget,
        div: BigUintTarget,
        rem: BigUintTarget,
        out: BigUintTarget,
    },
    /// `out` is the sign of a quotient: zero for a zero `quotient`, otherwise the dividend's sign.
    QuotientSign { quotient: BigUintTarget, dividend_sign: Target, out: Target },
    /// `out = x * y + z` in the field.
    MulAdd { x: Target, y: Target, z: Target, out: Target },
    /// `target` holds 0 or 1.
    IsBool { target: Target },
    /// `a` and `b` hold the same value.
    Connect { a: Target, b: Target },
}

/// The mathematical content of a [`Relation`].
#[allow(inconsistent_fields)]
pub enum RelationView {
    Constant { target: Target, value: nat },
    DivRem { a: Seq<U32Target>, b: Seq<U32Target>, div: Seq<U32Target>, rem: Seq<U32Target> },
    CeilDiv {
        a: Seq<U32Target>,
        b: Seq<U32Target>,
        div: Seq<U32Target>,
        rem: Seq<U32Target>,
        out: Seq<U32Target>,
    },
    QuotientSign { quotient: Seq<U32Target>, dividend_sign: Target, out: Target },
    MulAdd { x: Target, y: Target, z: Target, out: Target },
    IsBool { target: Target },
    Connect { a: Target, b: Target },
}

impl View for Relation {
    type V = RelationView;

    open spec fn view(&self) -> RelationView {
        match self {
            Relation::Constant { target, value } => RelationView::Constant {
                target: *target,
                value: *value as nat,
            },
            Relation::DivRem { a, b, div, rem } => RelationView::DivRem {
                a: a@,
                b: b@,
                div: div@,
                rem: rem@,
            },
            Relation::CeilDiv { a, b, div, rem, out } => RelationView::CeilDiv {
                a: a@,
                b: b@,
                div: div@,
                rem: rem@,
                out: out@,
            },
            Relation::QuotientSign { quotient, dividend_sign, out } => RelationView::QuotientSign {
                quotient: quotient@,
                dividend_sign: *dividend_sign,
                out: *out,
            },
            Relation::MulAdd { x, y, z, out } => RelationView::MulAdd { x: *x, y: *y, z: *z, out: *out },
            Relation::IsBool { target } => RelationView::IsBool { target: *target },
            Relation::Connect { a, b } => RelationView::Connect { a: *a, b: *b },
        }
    }
}

/// A sign wire value read as -1, 0 or 1 (`p - 1` stands for -1).
pub open spec fn sign_of(v: nat) -> int {
    if v == p() - 1 {
        -1
    } else {
        v as int
    }
}

pub open spec fn is_sign_value(v: nat) -> bool {
    v == 0 || v == 1 || v == p() - 1
}

/// Whether a witness satisfies a relation.
pub open spec fn relation_holds(r: RelationView, w: Seq<Option<nat>>) -> bool {
    match r {
        RelationView::Constant { target, value } => value_at(w, target.index as int) == Some(value),
        RelationView::DivRem { a, b, div, rem } => {
            &&& limbs_set(w, a)
            &&& limbs_set(w, b)
            &&& limbs_set(w, div)
            &&& limbs_set(w, rem)
            &&& limbs_val(w, b) == 0 ==> limbs_val(w, div) == 0 && limbs_val(w, rem) == 0
            &&& limbs_val(w, b) != 0 ==> limbs_val(w, a) == limbs_val(w, div) * limbs_val(w, b)
                + limbs_val(w, rem) && limbs_val(w, rem) < limbs_val(w, b)
        },
        RelationView::CeilDiv { a, b, div, rem, out } => {
            &&& limbs_set(w, a)
            &&& limbs_set(w, b)
            &&& limbs_set(w, div)
            &&& limbs_set(w, rem)
            &&& limbs_set(w, out)
            &&& limbs_val(w, b) == 0 ==> limbs_val(w, out) == limbs_val(w, a)
            &&& limbs_val(w, b) != 0 ==> limbs_val(w, out) == limbs_val(w, div) + (if limbs_val(
                w,
                rem,
            ) == 0 {
                0nat
            } else {
                1nat
            })
        },
        RelationView::QuotientSign { quotient, dividend_sign, out } => {
            &&& limbs_set(w, quotient)
            &&& value_at(w, dividend_sign.index as int) is Some
            &&& is_sign_value(value_at(w, dividend_sign.index as int)->0)
            &&& value_at(w, out.index as int) == Some(
                to_field(
                    (if limbs_val(w, quotient) == 0 {
                        0int
                    } else {
                        1int
                    }) * sign_of(value_at(w, dividend_sign.index as int)->0),
                ),
            )
        },
        RelationView::MulAdd { x, y, z, out } => {
            &&& value_at(w, x.index as int) is Some
            &&& value_at(w, y.index as int) is Some
            &&& value_at(w, z.index as int) is Some
            &&& value_at(w, out.index as int) == Some(
                to_field(
                    (value_at(w, x.index as int)->0 * value_at(w, y.index as int)->0 + value_at(
                        w,
                        z.index as int,
                    )->0) as int,
                ),
            )
        },
        RelationView::IsBool { target } => value_at(w, target.index as int) == Some(0nat)
            || value_at(w, target.index as int) == Some(1nat),
        RelationView::Connect { a, b } => value_at(w, a.index as int) is Some && value_at(
            w,
            a.index as int,
        ) == value_at(w, b.index as int),
    }
}

/// The witness generator that fills in the quotient and remainder of a big-integer division.
pub struct BigUintDivRemGenerator {
    pub a: BigUintTarget,
    pub b: BigUintTarget,
    pub div: BigUintTarget,
    pub rem: BigUintTarget,
}

pub struct GeneratorView {
    pub a: Seq<U32Target>,
    pub b: Seq<U32Target>,
    pub div: Seq<U32Target>,
    pub rem: Seq<U32Target>,
}

impl View for BigUintDivRemGenerator {
    type V = GeneratorView;

    open spec fn view(&self) -> GeneratorView {
        GeneratorView { a: self.a@, b: self.b@, div: self.div@, rem: self.rem@ }
    }
}

/// A remembered division: the wires allocated for `(a, b, quotient_num_limbs)`.
pub struct DivRemCacheEntry {
    pub a: BigUintTarget,
    pub b: BigUintTarget,
    pub quotient_num_limbs: usize,
    pub div: BigUintTarget,
    pub rem: BigUintTarget,
}

pub struct CacheEntryView {
    pub a: Seq<U32Target>,
    pub b: Seq<U32Target>,
    pub quotient_num_limbs: nat,
    pub div: Seq<U32Target>,
    pub rem: Seq<U32Target>,
}

impl View for DivRemCacheEntry {
    type V = CacheEntryView;

    open spec fn view(&self) -> CacheEntryView {
        CacheEntryView {
            a: self.a@,
            b: self.b@,
            quotient_num_limbs: self.quotient_num_limbs as nat,
            div: self.div@,
            rem: self.rem@,
        }
    }
}

/// The first remembered division for the key `(a, b, n)`.
pub open spec fn cache_lookup(
    c: Seq<CacheEntryView>,
    a: Seq<U32Target>,
    b: Seq<U32Target>,
    n: nat,
) -> Option<(Seq<U32Target>, Seq<U32Target>)>
    decreases c.len(),
{
    if c.len() == 0 {
        None
    } else if c[0].a == a && c[0].b == b && c[0].quotient_num_limbs == n {
        Some((c[0].div, c[0].rem))
    } else {
        cache_lookup(c.drop_first(), a, b, n)
    }
}

/// Some entry of the constant table holds `value`.
pub open spec fn has_constant(c: Seq<(u64, Target)>, value: nat) -> bool {
    exists|i: int| 0 <= i < c.len() && #[trigger] c[i].0 as nat == value
}

/// The constant table records `t` as the wire of `value`.
pub open spec fn constant_wire(c: Seq<(u64, Target)>, value: nat, t: Target) -> bool {
    exists|i: int| 0 <= i < c.len() && #[trigger] c[i] == (value as u64, t) && c[i].0 as nat == value
}

/// Some constraint says that `t` holds `v`.
pub open spec fn has_constant_relation(rels: Seq<RelationView>, t: Target, v: nat) -> bool {
    exists|j: int| 0 <= j < rels.len() && #[trigger] rels[j] == RelationView::Constant { target: t, value: v }
}

/// Every entry of the constant table is backed by a constant constraint.
pub open spec fn constants_recorded(s: BuilderView) -> bool {
    forall|i: int|
        0 <= i < s.constants.len() ==> #[trigger] has_constant_relation(
            s.relations,
            s.constants[i].1,
            s.constants[i].0 as nat,
        )
}

/// More constraints keep a constant constraint.
pub proof fn lemma_has_constant_relation_push(rels: Seq<RelationView>, r: RelationView, t: Target, v: nat)
    requires
        has_constant_relation(rels, t, v),
    ensures
        has_constant_relation(rels.push(r), t, v),
{
    let j = choose|j: int| 0 <= j < rels.len() && #[trigger] rels[j] == RelationView::Constant { target: t, value: v };
    assert(rels.push(r)[j] == rels[j]);
}

/// Every remembered division is backed by its division constraint and its witness
/// generator, so reusing its wires reuses constrained wires, and its quotient has the
/// remembered number of limbs and its remainder as many limbs as the divisor.
pub open spec fn cache_recorded(s: BuilderView) -> bool {
    forall|i: int|
        0 <= i < s.cache.len() ==> {
            let e = #[trigger] s.cache[i];
            &&& s.relations.contains(RelationView::DivRem { a: e.a, b: e.b, div: e.div, rem: e.rem })
            &&& s.generators.contains(GeneratorView { a: e.a, b: e.b, div: e.div, rem: e.rem })
            &&& e.div.len() == e.quotient_num_limbs
            &&& e.rem.len() == e.b.len()
        }
}

/// A well-formed builder: its constant table and its division cache are both backed by
/// recorded constraints. [`Builder::new`] gives one and every builder method keeps it.
pub open spec fn builder_well_formed(s: BuilderView) -> bool {
    constants_recorded(s) && cache_recorded(s)
}

/// `s2` keeps the constants and the cache of `s`, and its constraints and generators start
/// with those of `s`.
pub open spec fn extends_records(s: BuilderView, s2: BuilderView) -> bool {
    &&& s2.constants == s.constants
    &&& s2.cache == s.cache
    &&& s.relations.len() <= s2.relations.len()
    &&& forall|i: int| 0 <= i < s.relations.len() ==> s2.relations[i] == s.relations[i]
    &&& s.generators.len() <= s2.generators.len()
    &&& forall|i: int| 0 <= i < s.generators.len() ==> s2.generators[i] == s.generators[i]
}

/// Recording more constraints or generators keeps a builder well formed.
pub proof fn lemma_well_formed_extend(s: BuilderView, s2: BuilderView)
    requires
        builder_well_formed(s),
        extends_records(s, s2),
    ensures
        builder_well_formed(s2),
{
    assert forall|k: int| 0 <= k < s2.constants.len() implies #[trigger] has_constant_relation(
        s2.relations,
        s2.constants[k].1,
        s2.constants[k].0 as nat,
    ) by {
        assert(has_constant_relation(s.relations, s.constants[k].1, s.constants[k].0 as nat));
        let j = choose|j: int|
            0 <= j < s.relations.len() && #[trigger] s.relations[j] == RelationView::Constant {
                target: s.constants[k].1,
                value: s.constants[k].0 as nat,
            };
        assert(s2.relations[j] == s.relations[j]);
    }
    lemma_cache_recorded_extend(s, s2);
}

/// Recording more constraints or generators keeps the division cache backed.
pub proof fn lemma_cache_recorded_extend(s: BuilderView, s2: BuilderView)
    requires
        cache_recorded(s),
        s2.cache == s.cache,
        s.relations.len() <= s2.relations.len(),
        forall|i: int| 0 <= i < s.relations.len() ==> s2.relations[i] == s.relations[i],
        s.generators.len() <= s2.generators.len(),
        forall|i: int| 0 <= i < s.generators.len() ==> s2.generators[i] == s.generators[i],
    ensures
        cache_recorded(s2),
{
    assert forall|i: int| 0 <= i < s2.cache.len() implies {
        let e = #[trigger] s2.cache[i];
        &&& s2.relations.contains(RelationView::DivRem { a: e.a, b: e.b, div: e.div, rem: e.rem })
        &&& s2.generators.contains(GeneratorView { a: e.a, b: e.b, div: e.div, rem: e.rem })
        &&& e.div.len() == e.quotient_num_limbs
        &&& e.rem.len() == e.b.len()
    } by {
        let e = s.cache[i];
        let rel = RelationView::DivRem { a: e.a, b: e.b, div: e.div, rem: e.rem };
        let gen = GeneratorView { a: e.a, b: e.b, div: e.div, rem: e.rem };
        assert(s.relations.contains(rel));
        assert(s.generators.contains(gen));
        let j = choose|j: int| 0 <= j < s.relations.len() && s.relations[j] == rel;
        assert(s2.relations[j] == s.relations[j]);
        let g = choose|g: int| 0 <= g < s.generators.len() && s.generators[g] == gen;
        assert(s2.generators[g] == s.generators[g]);
    }
}

/// A witness satisfies every constraint the builder recorded.
pub open spec fn all_relations_hold(s: BuilderView, w: Seq<Option<nat>>) -> bool {
    forall|i: int| 0 <= i < s.relations.len() ==> relation_holds(#[trigger] s.relations[i], w)
}

/// Recording one more constraint keeps the constant table backed.
pub proof fn lemma_constants_recorded_push(s: BuilderView, r: RelationView, n: nat)
    requires
        constants_recorded(s),
    ensures
        constants_recorded(BuilderView { num_targets: n, relations: s.relations.push(r), ..s }),
{
    assert forall|k: int| 0 <= k < s.constants.len() implies #[trigger] has_constant_relation(
        s.relations.push(r),
        s.constants[k].1,
        s.constants[k].0 as nat,
    ) by {
        assert(has_constant_relation(s.relations, s.constants[k].1, s.constants[k].0 as nat));
        lemma_has_constant_relation_push(s.relations, r, s.constants[k].1, s.constants[k].0 as nat);
    }
}

/// A constant wire of a builder whose constraints hold carries its constant.
pub proof fn lemma_constant_value(s: BuilderView, w: Seq<Option<nat>>, v: nat, t: Target)
    requires
        constants_recorded(s),
        all_relations_hold(s, w),
        constant_wire(s.constants, v, t),
    ensures
        value_at(w, t.index as int) == Some(v),
{
    let i = choose|i: int|
        0 <= i < s.constants.len() && #[trigger] s.constants[i] == (v as u64, t)
            && s.constants[i].0 as nat == v;
    assert(has_constant_relation(s.relations, s.constants[i].1, s.constants[i].0 as nat));
    let j = choose|j: int|
        0 <= j < s.relations.len() && #[trigger] s.relations[j] == RelationView::Constant {
            target: s.constants[i].1,
            value: s.constants[i].0 as nat,
        };
    assert(relation_holds(s.relations[j], w));
}

/// The builder's state as mathematical values.
#[verifier::ext_equal]
pub struct BuilderView {
    pub num_targets: nat,
    pub public_inputs: Seq<Target>,
    pub constants: Seq<(u64, Target)>,
    pub relations: Seq<RelationView>,
    pub generators: Seq<GeneratorView>,
    pub cache: Seq<CacheEntryView>,
}

/// Collects wires, constants, constraints and witness generators of a circuit under construction.
pub struct Builder {
    pub num_targets: usize,
    /// The wires whose values the proof makes public, in order.
    pub public_inputs: Vec<Target>,
    pub constants: Vec<(u64, Target)>,
    pub relations: Vec<Relation>,
    pub generators: Vec<BigUintDivRemGenerator>,
    pub div_rem_biguint_cache: Vec<DivRemCacheEntry>,
}

impl View for Builder {
    type V = BuilderView;

    open spec fn view(&self) -> BuilderView {
        BuilderView {
            num_targets: self.num_targets as nat,
            public_inputs: self.public_inputs@,
            constants: self.constants@,
            relations: self.relations@.map_values(|r: Relation| r@),
            generators: self.generators@.map_values(|g: BigUintDivRemGenerator| g@),
            cache: self.div_rem_biguint_cache@.map_values(|e: DivRemCacheEntry| e@),
        }
    }
}

impl Builder {
    pub fn new() -> (r: Self)
        ensures
            r@ =~= (BuilderView {
                num_targets: 0,
                public_inputs: Seq::empty(),
                constants: Seq::empty(),
                relations: Seq::empty(),
                generators: Seq::empty(),
                cache: Seq::empty(),
            }),
            builder_well_formed(r@),
    {
        Builder {
            num_targets: 0,
            public_inputs: Vec::new(),
            constants: Vec::new(),
            relations: Vec::new(),
            generators: Vec::new(),
            div_rem_biguint_cache: Vec::new(),
        }
    }

    /// A fresh wire, unconstrained until a relation mentions it.
    pub fn add_virtual_target(&mut self) -> (r: Target)
        requires
            old(self).num_targets < usize::MAX,
        ensures
            r.index == old(self).num_targets,
            final(self)@ =~= (BuilderView { num_targets: old(self)@.num_targets + 1, ..old(self)@ }),
            builder_well_formed(old(self)@) ==> builder_well_formed(final(self)@),
    {
        let t = Target { index: self.num_targets };
        self.num_targets = self.num_targets + 1;
        t
    }

    /// `n` fresh limb wires, numbered consecutively.
    pub fn add_virtual_biguint_target_safe(&mut self, n: usize) -> (r: BigUintTarget)
        requires
            old(self).num_targets + n <= usize::MAX,
        ensures
            r@ == fresh_limbs(old(self)@.num_targets, n as nat),
            final(self)@ =~= (BuilderView { num_targets: old(self)@.num_targets + n as nat, ..old(self)@ }),
            builder_well_formed(old(self)@) ==> builder_well_formed(final(self)@),
    {
        let mut limbs: Vec<U32Target> = Vec::new();
        let start = self.num_targets;
        let mut i: usize = 0;
        while i < n
            invariant
                0 <= i <= n,
                start == old(self).num_targets,
                start + n <= usize::MAX,
                self.num_targets == start + i,
                self@ =~= (BuilderView { num_targets: (start + i) as nat, ..old(self)@ }),
                limbs@ =~= fresh_limbs(start as nat, i as nat),
            decreases n - i,
        {
            let t = self.add_virtual_target();
            limbs.push(U32Target(t));
            i = i + 1;
        }
        BigUintTarget { limbs }
    }

    /// `n` fresh limb wires with no range constraint on them.
    pub fn add_virtual_biguint_target_unsafe(&mut self, n: usize) -> (r: BigUintTarget)
        requires
            old(self).num_targets + n <= usize::MAX,
        ensures
            r@ == fresh_limbs(old(self)@.num_targets, n as nat),
            final(self)@ =~= (BuilderView { num_targets: old(self)@.num_targets + n as nat, ..old(self)@ }),
            builder_well_formed(old(self)@) ==> builder_well_formed(final(self)@),
    {
        self.add_virtual_biguint_target_safe(n)
    }

    /// A fresh wire constrained to hold 0 or 1.
    pub fn add_virtual_bool_target_safe(&mut self) -> (r: BoolTarget)
        requires
            old(self).num_targets < usize::MAX,
        ensures
            r.target.index == old(self).num_targets,
            final(self)@ =~= (BuilderView {
                num_targets: old(self)@.num_targets + 1,
                relations: old(self)@.relations.push(RelationView::IsBool { target: r.target }),
                ..old(self)@
            }),
            builder_well_formed(old(self)@) ==> builder_well_formed(final(self)@),
    {
        let t = self.add_virtual_target();
        self.relations.push(Relation::IsBool { target: t });
        proof {
            assert(self@.relations =~= old(self)@.relations.push(RelationView::IsBool { target: t }));
            if builder_well_formed(old(self)@) {
                lemma_well_formed_extend(old(self)@, self@);
            }
        }
        BoolTarget { target: t }
    }

    /// A fresh wire constrained to `x * y + z`.
    pub fn mul_add(&mut self, x: Target, y: Target, z: Target) -> (r: Target)
        requires
            old(self).num_targets < usize::MAX,
        ensures
            r.index == old(self).num_targets,
            final(self)@ =~= (BuilderView {
                num_targets: old(self)@.num_targets + 1,
                relations: old(self)@.relations.push(RelationView::MulAdd { x, y, z, out: r }),
                ..old(self)@
            }),
            builder_well_formed(old(self)@) ==> builder_well_formed(final(self)@),
    {
        let t = self.add_virtual_target();
        self.relations.push(Relation::MulAdd { x, y, z, out: t });
        proof {
            assert(self@.relations =~= old(self)@.relations.push(RelationView::MulAdd { x, y, z, out: t }));
            if builder_well_formed(old(self)@) {
                lemma_well_formed_extend(old(self)@, self@);
            }
        }
        t
    }

    /// The wire holding a constant, shared by every use of the same constant.
    pub fn constant(&mut self, value: GoldilocksField) -> (r: Target)
        requires
            old(self).num_targets < usize::MAX,
        ensures
            constant_wire(final(self)@.constants, value@, r),
            final(self)@.relations.len() >= old(self)@.relations.len(),
            forall|i: int|
                0 <= i < old(self)@.relations.len() ==> #[trigger] final(self)@.relations[i]
                    == old(self)@.relations[i],
            has_constant(old(self)@.constants, value@) ==> final(self)@ == old(self)@,
            constants_recorded(old(self)@) ==> constants_recorded(final(self)@),
            !has_constant(old(self)@.constants, value@) ==> {
                &&& r.index == old(self).num_targets
                &&& final(self)@ =~= (BuilderView {
                    num_targets: old(self)@.num_targets + 1,
                    constants: old(self)@.constants.push((value@ as u64, r)),
                    relations: old(self)@.relations.push(
                        RelationView::Constant { target: r, value: value@ },
                    ),
                    ..old(self)@
                })
            },
            builder_well_formed(old(self)@) ==> builder_well_formed(final(self)@),
    {
        let v = value.to_canonical_u64();
        let mut i: usize = 0;
        while i < self.constants.len()
            invariant
                0 <= i <= self.constants@.len(),
                v == value@,
                forall|j: int| 0 <= j < i ==> #[trigger] self.constants@[j].0 != v,
            decreases self.constants.len() - i,
        {
            if self.constants[i].0 == v {
                let t = self.constants[i].1;
                proof {
                    assert(self@.constants[i as int] == self.constants@[i as int]);
                }
                return t;
            }
            i = i + 1;
        }
        let t = self.add_virtual_target();
        self.constants.push((v, t));
        self.relations.push(Relation::Constant { target: t, value: v });
        proof {
            assert(self@.relations =~= old(self)@.relations.push(
                RelationView::Constant { target: t, value: value@ },
            ));
            assert(self@.constants[self@.constants.len() - 1] == (v, t));
            if constants_recorded(old(self)@) {
                let s1 = self@;
                assert forall|k: int| 0 <= k < s1.constants.len() implies #[trigger] has_constant_relation(
                    s1.relations,
                    s1.constants[k].1,
                    s1.constants[k].0 as nat,
                ) by {
                    if k < old(self)@.constants.len() {
                        assert(s1.constants[k] == old(self)@.constants[k]);
                        assert(has_constant_relation(
                            old(self)@.relations,
                            old(self)@.constants[k].1,
                            old(self)@.constants[k].0 as nat,
                        ));
                        lemma_has_constant_relation_push(
                            old(self)@.relations,
                            RelationView::Constant { target: t, value: value@ },
                            s1.constants[k].1,
                            s1.constants[k].0 as nat,
                        );
                    } else {
                        assert(s1.relations[s1.relations.len() - 1] == RelationView::Constant {
                            target: t,
                            value: value@,
                        });
                    }
                }
            }
        }
        proof {
            if builder_well_formed(old(self)@) {
                lemma_cache_recorded_extend(old(self)@, self@);
            }
        }
        t
    }

    /// Makes the value of `t` public, after those registered before.
    pub fn register_public_input(&mut self, t: Target)
        ensures
            final(self)@ =~= (BuilderView {
                public_inputs: old(self)@.public_inputs.push(t),
                ..old(self)@
            }),
            builder_well_formed(old(self)@) ==> builder_well_formed(final(self)@),
    {
        self.public_inputs.push(t);
        proof {
            if builder_well_formed(old(self)@) {
                lemma_well_formed_extend(old(self)@, self@);
            }
        }
    }

    /// Constrains `a` and `b` to hold the same value.
    pub fn connect(&mut self, a: Target, b: Target)
        ensures
            final(self)@ =~= (BuilderView {
                relations: old(self)@.relations.push(RelationView::Connect { a, b }),
                ..old(self)@
            }),
            builder_well_formed(old(self)@) ==> builder_well_formed(final(self)@),
    {
        self.relations.push(Relation::Connect { a, b });
        proof {
            assert(self@.relations =~= old(self)@.relations.push(RelationView::Connect { a, b }));
            if builder_well_formed(old(self)@) {
                lemma_well_formed_extend(old(self)@, self@);
            }
        }
    }

    pub fn zero(&mut self) -> (r: Target)
        requires
            old(self).num_targets < usize::MAX,
        ensures
            constant_wire(final(self)@.constants, 0, r),
            final(self)@.relations.len() >= old(self)@.relations.len(),
            forall|i: int|
                0 <= i < old(self)@.relations.len() ==> #[trigger] final(self)@.relations[i]
                    == old(self)@.relations[i],
            builder_well_formed(old(self)@) ==> builder_well_formed(final(self)@),
    {
        let z = GoldilocksField::zero();
        self.constant(z)
    }
}

} // verus!
