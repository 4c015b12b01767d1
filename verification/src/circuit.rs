use vstd::prelude::*;
use crate::field::GoldilocksField;
use crate::limbs::{radix, limbs_value};

verus! {

/// A wire of the circuit, named by its index.
#[derive(Clone, Copy, Debug, PartialEq, Eq, Structural)]
pub struct Target {
    pub index: usize,
}

/// A wire constrained to hold 0 or 1.
#[derive(Clone, Copy, Debug, PartialEq, Eq, Structural)]
pub struct BoolTarget {
    pub target: Target,
}

/// A wire constrained to hold a value below `2^32`.
#[derive(Clone, Copy, Debug, PartialEq, Eq, Structural)]
pub struct U32Target(pub Target);

/// An unsigned big integer spread over little-endian 32-bit limb wires.
#[derive(Debug)]
pub struct BigUintTarget {
    pub limbs: Vec<U32Target>,
}

impl View for BigUintTarget {
    type V = Seq<U32Target>;

    open spec fn view(&self) -> Seq<U32Target> {
        self.limbs@
    }
}

impl Clone for BigUintTarget {
    fn clone(&self) -> (r: Self)
        ensures
            r@ == self@,
    {
        let limbs = self.limbs.clone();
        assert(limbs@ =~= self.limbs@);
        BigUintTarget { limbs }
    }
}

impl BigUintTarget {
    /// Whether two big integers use the very same limb wires.
    pub fn same_wires(&self, other: &Self) -> (r: bool)
        ensures
            r == (self@ == other@),
    {
        if self.limbs.len() != other.limbs.len() {
            return false;
        }
        let mut i: usize = 0;
        while i < self.limbs.len()
            invariant
                self.limbs@.len() == other.limbs@.len(),
                0 <= i <= self.limbs@.len(),
                forall|j: int| 0 <= j < i ==> self.limbs@[j] == other.limbs@[j],
            decreases self.limbs.len() - i,
        {
            if self.limbs[i].0.index != other.limbs[i].0.index {
                return false;
            }
            i = i + 1;
        }
        assert(self@ =~= other@);
        true
    }

    pub fn num_limbs(&self) -> (r: usize)
        ensures
            r == self@.len(),
    {
        self.limbs.len()
    }
}

/// The sign wire of a signed big integer: it holds -1, 0 or 1.
#[derive(Clone, Copy, Debug, PartialEq, Eq, Structural)]
pub struct SignTarget {
    pub target: Target,
}

/// A signed big integer: a magnitude and a sign wire.
#[derive(Debug)]
pub struct BigIntTarget {
    pub abs: BigUintTarget,
    pub sign: SignTarget,
}

/// Why assigning values to wires failed.
#[derive(Clone, Copy, Debug, PartialEq, Eq, Structural)]
pub enum WitnessError {
    /// A wire that was read holds no value yet.
    MissingValue,
    /// A wire already holds a different value.
    ConflictingValue,
    /// A limb wire holds a value of 2^32 or more.
    LimbOutOfRange,
    /// A number has more digits than the limb wires meant to hold it.
    TooManyDigits,
    /// A sign wire holds a value other than 0, 1 and `p - 1`.
    InvalidSign,
}

pub open spec fn opt_value(o: Option<GoldilocksField>) -> Option<nat> {
    match o {
        Some(f) => Some(f@),
        None => None,
    }
}

/// The value a witness gives a wire index, if any.
pub open spec fn value_at(w: Seq<Option<nat>>, i: int) -> Option<nat> {
    if 0 <= i < w.len() {
        w[i]
    } else {
        None
    }
}

/// `w2` keeps every value that `w` assigns.
pub open spec fn extends(w: Seq<Option<nat>>, w2: Seq<Option<nat>>) -> bool {
    forall|i: int| #[trigger] value_at(w, i) is Some ==> value_at(w2, i) == value_at(w, i)
}

/// An assignment of field values to wires; unassigned wires hold `None`.
pub struct PartialWitness {
    pub values: Vec<Option<GoldilocksField>>,
}

impl View for PartialWitness {
    type V = Seq<Option<nat>>;

    open spec fn view(&self) -> Seq<Option<nat>> {
        self.values@.map_values(|o: Option<GoldilocksField>| opt_value(o))
    }
}

impl PartialWitness {
    pub fn new() -> (r: Self)
        ensures
            forall|i: int| value_at(r@, i) is None,
    {
        PartialWitness { values: Vec::new() }
    }

    pub fn get_target(&self, t: Target) -> (r: Option<GoldilocksField>)
        ensures
            opt_value(r) == value_at(self@, t.index as int),
    {
        if t.index < self.values.len() {
            self.values[t.index]
        } else {
            None
        }
    }

    /// Assigns `value` to `t`; assigning a wire twice is allowed only with the same value.
    pub fn set_target(&mut self, t: Target, value: GoldilocksField) -> (r: Result<(), WitnessError>)
        ensures
            r is Ok <==> (value_at(old(self)@, t.index as int) is None || value_at(
                old(self)@,
                t.index as int,
            ) == Some(value@)),
            r is Ok ==> value_at(final(self)@, t.index as int) == Some(value@),
            r is Ok ==> forall|i: int|
                i != t.index ==> #[trigger] value_at(final(self)@, i) == value_at(old(self)@, i),
            r is Err ==> r == Err::<(), WitnessError>(WitnessError::ConflictingValue),
            r is Err ==> final(self)@ == old(self)@,
    {
        if t.index < self.values.len() {
            match self.values[t.index] {
                Some(x) => {
                    if x.equals(&value) {
                        return Ok(());
                    } else {
                        return Err(WitnessError::ConflictingValue);
                    }
                },
                None => {},
            }
        } else {
            while self.values.len() <= t.index
                invariant
                    forall|i: int|
                        0 <= i < old(self)@.len() ==> #[trigger] self.values@[i] == old(self).values@[i],
                    forall|i: int|
                        old(self)@.len() <= i < self.values@.len() ==> #[trigger] self.values@[i] is None,
                    self.values@.len() >= old(self).values@.len(),
                decreases t.index as int + 1 - self.values.len() as int,
            {
                self.values.push(None);
            }
        }
        let ghost before = self@;
        self.values.set(t.index, Some(value));
        proof {
            assert forall|i: int| i != t.index implies #[trigger] value_at(self@, i) == value_at(
                old(self)@,
                i,
            ) by {
                if 0 <= i < self@.len() {
                    assert(self@[i] == before[i]);
                }
            }
        }
        Ok(())
    }
}

/// Every limb wire holds a value below `2^32`.
pub open spec fn limbs_set(w: Seq<Option<nat>>, ls: Seq<U32Target>) -> bool {
    forall|i: int|
        0 <= i < ls.len() ==> #[trigger] value_at(w, ls[i].0.index as int) is Some && value_at(
            w,
            ls[i].0.index as int,
        )->0 < radix()
}

/// The digits that the limb wires hold.
pub open spec fn limbs_digits(w: Seq<Option<nat>>, ls: Seq<U32Target>) -> Seq<u32> {
    Seq::new(ls.len(), |i: int| value_at(w, ls[i].0.index as int)->0 as u32)
}

/// The number that the limb wires hold.
pub open spec fn limbs_val(w: Seq<Option<nat>>, ls: Seq<U32Target>) -> nat {
    limbs_value(limbs_digits(w, ls))
}

/// Values already held by limb wires are kept by an extension of the witness.
pub proof fn lemma_limbs_extend(w: Seq<Option<nat>>, w2: Seq<Option<nat>>, ls: Seq<U32Target>)
    requires
        extends(w, w2),
        limbs_set(w, ls),
    ensures
        limbs_set(w2, ls),
        limbs_digits(w2, ls) == limbs_digits(w, ls),
        limbs_val(w2, ls) == limbs_val(w, ls),
{
    assert forall|i: int| 0 <= i < ls.len() implies #[trigger] value_at(
        w2,
        ls[i].0.index as int,
    ) == value_at(w, ls[i].0.index as int) by {
        assert(value_at(w, ls[i].0.index as int) is Some);
    }
    assert(limbs_digits(w2, ls) =~= limbs_digits(w, ls));
}

/// `n` fresh limb wires numbered from `start`.
pub open spec fn fresh_limbs(start: nat, n: nat) -> Seq<U32Target> {
    Seq::new(n, |i: int| U32Target(Target { index: (start + i) as usize }))
}

/// No wire index appears twice.
pub open spec fn distinct_targets(ts: Seq<Target>) -> bool {
    forall|i: int, j: int| 0 <= i < j < ts.len() ==> #[trigger] ts[i].index != #[trigger] ts[j].index
}

/// Every wire is still unassigned.
pub open spec fn targets_unset(w: Seq<Option<nat>>, ts: Seq<Target>) -> bool {
    forall|i: int| 0 <= i < ts.len() ==> value_at(w, #[trigger] ts[i].index as int) is None
}

/// The wires hold the given values, position by position.
pub open spec fn targets_hold(w: Seq<Option<nat>>, ts: Seq<Target>, vs: Seq<nat>) -> bool {
    ts.len() == vs.len() && forall|i: int|
        0 <= i < ts.len() ==> value_at(w, #[trigger] ts[i].index as int) == Some(vs[i])
}

impl PartialWitness {
    /// Assigns `values[i]` to `targets[i]` for every `i`, stopping at the first conflict.
    pub fn set_targets(&mut self, targets: &Vec<Target>, values: &Vec<GoldilocksField>) -> (r: Result<
        (),
        WitnessError,
    >)
        requires
            targets@.len() == values@.len(),
        ensures
            extends(old(self)@, final(self)@),
            forall|k: int|
                (forall|j: int| 0 <= j < targets@.len() ==> targets@[j].index != k) ==> #[trigger] value_at(
                    final(self)@,
                    k,
                ) == value_at(old(self)@, k),
            r is Ok ==> targets_hold(
                final(self)@,
                targets@,
                values@.map_values(|v: GoldilocksField| v@),
            ),
            targets_unset(old(self)@, targets@) && distinct_targets(targets@) ==> r is Ok,
    {
        let mut i: usize = 0;
        while i < targets.len()
            invariant
                0 <= i <= targets@.len(),
                targets@.len() == values@.len(),
                extends(old(self)@, self@),
                forall|j: int|
                    0 <= j < i ==> value_at(self@, #[trigger] targets@[j].index as int) == Some(
                        values@[j]@,
                    ),
                forall|k: int|
                    (forall|j: int| 0 <= j < i ==> targets@[j].index != k) ==> #[trigger] value_at(
                        self@,
                        k,
                    ) == value_at(old(self)@, k),
                targets_unset(old(self)@, targets@) && distinct_targets(targets@) ==> forall|j: int|
                    i <= j < targets@.len() ==> value_at(self@, #[trigger] targets@[j].index as int) is None,
            decreases targets.len() - i,
        {
            let ghost before = self@;
            let res = self.set_target(targets[i], values[i]);
            match res {
                Ok(()) => {},
                Err(e) => {
                    return Err(e);
                },
            }
            proof {
                assert forall|k: int| value_at(old(self)@, k) is Some implies value_at(self@, k)
                    == value_at(old(self)@, k) by {
                    if k != targets@[i as int].index {
                        assert(value_at(before, k) == value_at(old(self)@, k));
                    }
                }
                if targets_unset(old(self)@, targets@) && distinct_targets(targets@) {
                    assert forall|j: int| i + 1 <= j < targets@.len() implies value_at(
                        self@,
                        #[trigger] targets@[j].index as int,
                    ) is None by {
                        assert(targets@[i as int].index != targets@[j].index);
                    }
                }
            }
            i = i + 1;
        }
        proof {
            assert(values@.map_values(|v: GoldilocksField| v@).len() == targets@.len());
        }
        Ok(())
    }
}

/// The wires of limb targets, in limb order.
pub open spec fn limb_targets(ls: Seq<U32Target>) -> Seq<Target> {
    Seq::new(ls.len(), |i: int| ls[i].0)
}

/// When a write touches only the wires of `front`, the wires of `rest` that were unset and
/// distinct stay so.
pub proof fn lemma_rest_unset(
    w: Seq<Option<nat>>,
    w2: Seq<Option<nat>>,
    front: Seq<Target>,
    rest: Seq<Target>,
)
    requires
        targets_unset(w, front + rest),
        distinct_targets(front + rest),
        forall|k: int|
            (forall|j: int| 0 <= j < front.len() ==> front[j].index != k) ==> #[trigger] value_at(w2, k)
                == value_at(w, k),
    ensures
        targets_unset(w, front),
        distinct_targets(front),
        targets_unset(w2, rest),
        distinct_targets(rest),
{
    let all = front + rest;
    assert forall|i: int| 0 <= i < front.len() implies value_at(w, #[trigger] front[i].index as int) is None by {
        assert(all[i] == front[i]);
    }
    assert forall|i: int, j: int| 0 <= i < j < front.len() implies #[trigger] front[i].index != #[trigger] front[j].index by {
        assert(all[i] == front[i] && all[j] == front[j]);
    }
    assert forall|i: int| 0 <= i < rest.len() implies value_at(w2, #[trigger] rest[i].index as int) is None by {
        let k = rest[i].index as int;
        assert(all[front.len() + i] == rest[i]);
        assert forall|j: int| 0 <= j < front.len() implies front[j].index != k by {
            assert(all[j] == front[j]);
        }
    }
    assert forall|i: int, j: int| 0 <= i < j < rest.len() implies #[trigger] rest[i].index != #[trigger] rest[j].index by {
        assert(all[front.len() + i] == rest[i] && all[front.len() + j] == rest[j]);
    }
}

/// Values held by wires stay held in an extension of the witness.
pub proof fn lemma_targets_hold_extend(w: Seq<Option<nat>>, w2: Seq<Option<nat>>, ts: Seq<Target>, vs: Seq<nat>)
    requires
        extends(w, w2),
        targets_hold(w, ts, vs),
    ensures
        targets_hold(w2, ts, vs),
{
    assert forall|i: int| 0 <= i < ts.len() implies value_at(w2, #[trigger] ts[i].index as int) == Some(vs[i]) by {
        assert(value_at(w, ts[i].index as int) is Some);
    }
}

} // verus!
