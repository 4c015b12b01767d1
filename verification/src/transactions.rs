use vstd::prelude::*;
use crate::field::{GoldilocksField, i64_field};
use crate::limbs::{limbs_value, is_minimal, limb_capacity};
use crate::circuit::{
    Target, BoolTarget, U32Target, BigUintTarget, PartialWitness, WitnessError, extends, targets_hold, value_at,
    targets_unset, distinct_targets, limbs_set, limbs_val, fresh_limbs, lemma_targets_hold_extend,
    lemma_limbs_extend, limb_targets, lemma_rest_unset,
};
use crate::builder::{Builder, BuilderView, RelationView};
use crate::div_rem::{set_biguint_target, lemma_minimal_len};
use crate::schnorr::trim_digits;

verus! {

/// Number of 32-bit limbs of a 64-bit amount wire.
pub const BIG_U64_LIMBS: usize = 2;

/// The shortest 32-bit digits of a `u64`.
fn u64_digits(x: u64) -> (r: Vec<u32>)
    ensures
        limbs_value(r@) == x as nat,
        r@.len() <= BIG_U64_LIMBS,
{
    let lo = x as u32;
    let hi = (x >> 32u64) as u32;
    assert(x == lo as u64 + 4294967296u64 * hi as u64) by (bit_vector)
        requires
            lo == x as u32,
            hi == (x >> 32u64) as u32,
    ;
    let d = vec![lo, hi];
    proof {
        assert(d@.drop_first().drop_first() =~= Seq::<u32>::empty());
        assert(limbs_value(d@.drop_first().drop_first()) == 0);
        assert(limbs_value(d@.drop_first()) == hi as nat + 4294967296 * 0);
    }
    trim_digits(d)
}

/// Number of 32-bit limbs of a layer-1 address wire.
pub const BIG_U160_LIMBS: usize = 5;

/// The shortest spelling of a digit string.
fn shortest_digits(d: &Vec<u32>) -> (r: Vec<u32>)
    ensures
        limbs_value(r@) == limbs_value(d@),
        is_minimal(r@),
{
    let c = d.clone();
    assert(c@ =~= d@);
    trim_digits(c)
}

/// Unset, distinct limb wires, stated limb by limb.
proof fn lemma_limbs_unset(w: Seq<Option<nat>>, ls: Seq<U32Target>)
    requires
        targets_unset(w, limb_targets(ls)),
        distinct_targets(limb_targets(ls)),
    ensures
        forall|i: int| 0 <= i < ls.len() ==> value_at(w, #[trigger] ls[i].0.index as int) is None,
        forall|i: int, j: int|
            0 <= i < j < ls.len() ==> #[trigger] ls[i].0.index != #[trigger] ls[j].0.index,
{
    let lt = limb_targets(ls);
    assert forall|i: int| 0 <= i < ls.len() implies value_at(w, #[trigger] ls[i].0.index as int) is None by {
        assert(lt[i] == ls[i].0);
    }
    assert forall|i: int, j: int| 0 <= i < j < ls.len() implies #[trigger] ls[i].0.index != #[trigger] ls[j].0.index by {
        assert(lt[i] == ls[i].0 && lt[j] == ls[j].0);
    }
}

/// A write that leaves every wire but the limbs alone, stated over [`limb_targets`].
proof fn lemma_limb_frame(w: Seq<Option<nat>>, w2: Seq<Option<nat>>, ls: Seq<U32Target>)
    requires
        forall|k: int|
            (forall|j: int| 0 <= j < ls.len() ==> ls[j].0.index != k) ==> #[trigger] value_at(w2, k)
                == value_at(w, k),
    ensures
        forall|k: int|
            (forall|j: int| 0 <= j < limb_targets(ls).len() ==> limb_targets(ls)[j].index != k)
                ==> #[trigger] value_at(w2, k) == value_at(w, k),
{
    let lt = limb_targets(ls);
    assert forall|k: int|
        (forall|j: int| 0 <= j < lt.len() ==> lt[j].index != k) implies #[trigger] value_at(w2, k)
        == value_at(w, k) by {
        assert forall|j: int| 0 <= j < ls.len() implies ls[j].0.index != k by {
            assert(lt[j] == ls[j].0);
        }
    }
}

/// An internal liquidation of a spot balance.
#[derive(Clone, Copy, Debug)]
pub struct InternalLiquidateSpotTx {
    pub account_index: i64,
    pub asset_index: i16,
    pub market_index: i16,
    pub base_amount: i64,
}

impl Default for InternalLiquidateSpotTx {
    fn default() -> (r: Self)
        ensures
            r.account_index == 0 && r.asset_index == 0 && r.market_index == 0 && r.base_amount == 0,
    {
        InternalLiquidateSpotTx { account_index: 0, asset_index: 0, market_index: 0, base_amount: 0 }
    }
}

/// The input wires of a [`InternalLiquidateSpotTx`].
#[derive(Clone, Copy, Debug)]
pub struct InternalLiquidateSpotTxTarget {
    pub account_index: Target,
    pub asset_index: Target,
    pub market_index: Target,
    pub base_amount: Target,
}

/// The single-wire inputs of a [`InternalLiquidateSpotTxTarget`], in field order.
pub open spec fn internal_liquidate_spot_tx_targets(t: InternalLiquidateSpotTxTarget) -> Seq<Target> {
    seq![t.account_index, t.asset_index, t.market_index, t.base_amount]
}

/// The field values of a [`InternalLiquidateSpotTx`] on the wires of [`internal_liquidate_spot_tx_targets`].
pub open spec fn internal_liquidate_spot_tx_values(tx: InternalLiquidateSpotTx) -> Seq<nat> {
    seq![i64_field(tx.account_index), i64_field(tx.asset_index as i64), i64_field(tx.market_index as i64), i64_field(tx.base_amount)]
}

impl InternalLiquidateSpotTxTarget {
    /// Fresh wires for every input, numbered in field order.
    pub fn new(builder: &mut Builder) -> (r: Self)
        requires
            old(builder).num_targets + 4 <= usize::MAX,
        ensures
            r.account_index.index == old(builder).num_targets + 0,
            r.asset_index.index == old(builder).num_targets + 1,
            r.market_index.index == old(builder).num_targets + 2,
            r.base_amount.index == old(builder).num_targets + 3,
            final(builder)@ =~= (BuilderView { num_targets: old(builder)@.num_targets + 4, ..old(builder)@ }),
    {
        let account_index = builder.add_virtual_target();
        let asset_index = builder.add_virtual_target();
        let market_index = builder.add_virtual_target();
        let base_amount = builder.add_virtual_target();
        InternalLiquidateSpotTxTarget { account_index, asset_index, market_index, base_amount }
    }
}

/// Assigning a [`InternalLiquidateSpotTx`] to its wires.
pub trait InternalLiquidateSpotTxTargetWitness {
    fn set_internal_liquidate_spot_tx_target(&mut self, a: &InternalLiquidateSpotTxTarget, b: &InternalLiquidateSpotTx) -> Result<(), WitnessError>;
}

impl InternalLiquidateSpotTxTargetWitness for PartialWitness {
    /// Writes the field value of every input of `b` into its wire in `a`.
    fn set_internal_liquidate_spot_tx_target(&mut self, a: &InternalLiquidateSpotTxTarget, b: &InternalLiquidateSpotTx) -> (r: Result<(), WitnessError>)
        ensures
            extends(old(self)@, final(self)@),
            r is Ok ==> targets_hold(final(self)@, internal_liquidate_spot_tx_targets(*a), internal_liquidate_spot_tx_values(*b)),
            targets_unset(old(self)@, internal_liquidate_spot_tx_targets(*a)) && distinct_targets(internal_liquidate_spot_tx_targets(*a)) ==> r is Ok,
    {
        let targets = vec![a.account_index, a.asset_index, a.market_index, a.base_amount];
        let values = vec![GoldilocksField::from_canonical_i64(b.account_index), GoldilocksField::from_canonical_i64(b.asset_index as i64), GoldilocksField::from_canonical_i64(b.market_index as i64), GoldilocksField::from_canonical_i64(b.base_amount)];
        assert(targets@ =~= internal_liquidate_spot_tx_targets(*a));
        assert(values@.map_values(|v: GoldilocksField| v@) =~= internal_liquidate_spot_tx_values(*b));
        self.set_targets(&targets, &values)
    }
}

/// An internal release of an account's pending unlock.
#[derive(Clone, Copy, Debug)]
pub struct InternalPendingUnlockTx {
    pub account_index: i64,
    pub asset_index: u16,
}

impl Default for InternalPendingUnlockTx {
    fn default() -> (r: Self)
        ensures
            r.account_index == 0 && r.asset_index == 0,
    {
        InternalPendingUnlockTx { account_index: 0, asset_index: 0 }
    }
}

/// The input wires of a [`InternalPendingUnlockTx`].
#[derive(Clone, Copy, Debug)]
pub struct InternalPendingUnlockTxTarget {
    pub account_index: Target,
    pub asset_index: Target,
}

/// The single-wire inputs of a [`InternalPendingUnlockTxTarget`], in field order.
pub open spec fn internal_pending_unlock_tx_targets(t: InternalPendingUnlockTxTarget) -> Seq<Target> {
    seq![t.account_index, t.asset_index]
}

/// The field values of a [`InternalPendingUnlockTx`] on the wires of [`internal_pending_unlock_tx_targets`].
pub open spec fn internal_pending_unlock_tx_values(tx: InternalPendingUnlockTx) -> Seq<nat> {
    seq![i64_field(tx.account_index), tx.asset_index as nat]
}

impl InternalPendingUnlockTxTarget {
    /// Fresh wires for every input, numbered in field order.
    pub fn new(builder: &mut Builder) -> (r: Self)
        requires
            old(builder).num_targets + 2 <= usize::MAX,
        ensures
            r.account_index.index == old(builder).num_targets + 0,
            r.asset_index.index == old(builder).num_targets + 1,
            final(builder)@ =~= (BuilderView { num_targets: old(builder)@.num_targets + 2, ..old(builder)@ }),
    {
        let account_index = builder.add_virtual_target();
        let asset_index = builder.add_virtual_target();
        InternalPendingUnlockTxTarget { account_index, asset_index }
    }
}

/// Assigning a [`InternalPendingUnlockTx`] to its wires.
pub trait InternalPendingUnlockTxTargetWitness {
    fn set_internal_pending_unlock_tx_target(&mut self, a: &InternalPendingUnlockTxTarget, b: &InternalPendingUnlockTx) -> Result<(), WitnessError>;
}

impl InternalPendingUnlockTxTargetWitness for PartialWitness {
    /// Writes the field value of every input of `b` into its wire in `a`.
    fn set_internal_pending_unlock_tx_target(&mut self, a: &InternalPendingUnlockTxTarget, b: &InternalPendingUnlockTx) -> (r: Result<(), WitnessError>)
        ensures
            extends(old(self)@, final(self)@),
            r is Ok ==> targets_hold(final(self)@, internal_pending_unlock_tx_targets(*a), internal_pending_unlock_tx_values(*b)),
            targets_unset(old(self)@, internal_pending_unlock_tx_targets(*a)) && distinct_targets(internal_pending_unlock_tx_targets(*a)) ==> r is Ok,
    {
        let targets = vec![a.account_index, a.asset_index];
        let values = vec![GoldilocksField::from_canonical_i64(b.account_index), GoldilocksField::from_canonical_u16(b.asset_index)];
        assert(targets@ =~= internal_pending_unlock_tx_targets(*a));
        assert(values@.map_values(|v: GoldilocksField| v@) =~= internal_pending_unlock_tx_values(*b));
        self.set_targets(&targets, &values)
    }
}

/// An internal settlement of a binary options position.
#[derive(Clone, Copy, Debug)]
pub struct InternalSettleBinaryOptionsPositionTx {
    pub account_index: i64,
    pub market_index: i16,
}

impl Default for InternalSettleBinaryOptionsPositionTx {
    fn default() -> (r: Self)
        ensures
            r.account_index == 0 && r.market_index == 0,
    {
        InternalSettleBinaryOptionsPositionTx { account_index: 0, market_index: 0 }
    }
}

/// The input wires of a [`InternalSettleBinaryOptionsPositionTx`].
#[derive(Clone, Copy, Debug)]
pub struct InternalSettleBinaryOptionsPositionTxTarget {
    pub account_index: Target,
    pub market_index: Target,
}

/// The single-wire inputs of a [`InternalSettleBinaryOptionsPositionTxTarget`], in field order.
pub open spec fn internal_settle_binary_options_position_tx_targets(t: InternalSettleBinaryOptionsPositionTxTarget) -> Seq<Target> {
    seq![t.account_index, t.market_index]
}

/// The field values of a [`InternalSettleBinaryOptionsPositionTx`] on the wires of [`internal_settle_binary_options_position_tx_targets`].
pub open spec fn internal_settle_binary_options_position_tx_values(tx: InternalSettleBinaryOptionsPositionTx) -> Seq<nat> {
    seq![i64_field(tx.account_index), i64_field(tx.market_index as i64)]
}

impl InternalSettleBinaryOptionsPositionTxTarget {
    /// Fresh wires for every input, numbered in field order.
    pub fn new(builder: &mut Builder) -> (r: Self)
        requires
            old(builder).num_targets + 2 <= usize::MAX,
        ensures
            r.account_index.index == old(builder).num_targets + 0,
            r.market_index.index == old(builder).num_targets + 1,
            final(builder)@ =~= (BuilderView { num_targets: old(builder)@.num_targets + 2, ..old(builder)@ }),
    {
        let account_index = builder.add_virtual_target();
        let market_index = builder.add_virtual_target();
        InternalSettleBinaryOptionsPositionTxTarget { account_index, market_index }
    }
}

/// Assigning a [`InternalSettleBinaryOptionsPositionTx`] to its wires.
pub trait InternalSettleBinaryOptionsPositionTxTargetWitness {
    fn set_internal_settle_binary_options_position_tx_target(&mut self, a: &InternalSettleBinaryOptionsPositionTxTarget, b: &InternalSettleBinaryOptionsPositionTx) -> Result<(), WitnessError>;
}

impl InternalSettleBinaryOptionsPositionTxTargetWitness for PartialWitness {
    /// Writes the field value of every input of `b` into its wire in `a`.
    fn set_internal_settle_binary_options_position_tx_target(&mut self, a: &InternalSettleBinaryOptionsPositionTxTarget, b: &InternalSettleBinaryOptionsPositionTx) -> (r: Result<(), WitnessError>)
        ensures
            extends(old(self)@, final(self)@),
            r is Ok ==> targets_hold(final(self)@, internal_settle_binary_options_position_tx_targets(*a), internal_settle_binary_options_position_tx_values(*b)),
            targets_unset(old(self)@, internal_settle_binary_options_position_tx_targets(*a)) && distinct_targets(internal_settle_binary_options_position_tx_targets(*a)) ==> r is Ok,
    {
        let targets = vec![a.account_index, a.market_index];
        let values = vec![GoldilocksField::from_canonical_i64(b.account_index), GoldilocksField::from_canonical_i64(b.market_index as i64)];
        assert(targets@ =~= internal_settle_binary_options_position_tx_targets(*a));
        assert(values@.map_values(|v: GoldilocksField| v@) =~= internal_settle_binary_options_position_tx_values(*b));
        self.set_targets(&targets, &values)
    }
}

/// A layer-1 registration of an asset.
#[derive(Clone, Copy, Debug)]
pub struct L1RegisterAssetTx {
    pub asset_index: i16,
    pub extension_multiplier: i64,
    pub min_transfer_amount: i64,
    pub min_withdrawal_amount: i64,
    pub margin_mode: u8,
    pub loan_to_value: u16,
    pub liquidation_threshold: u16,
    pub liquidation_factor: u16,
    pub liquidation_fee: u32,
    pub index_price_divider: i64,
    pub margin_index: u8,
    pub index_price: i64,
}

impl Default for L1RegisterAssetTx {
    fn default() -> (r: Self)
        ensures
            r.asset_index == 0 && r.extension_multiplier == 0 && r.min_transfer_amount == 0 && r.min_withdrawal_amount == 0 && r.margin_mode == 0 && r.loan_to_value == 0 && r.liquidation_threshold == 0 && r.liquidation_factor == 0 && r.liquidation_fee == 0 && r.index_price_divider == 0 && r.margin_index == 0 && r.index_price == 0,
    {
        L1RegisterAssetTx { asset_index: 0, extension_multiplier: 0, min_transfer_amount: 0, min_withdrawal_amount: 0, margin_mode: 0, loan_to_value: 0, liquidation_threshold: 0, liquidation_factor: 0, liquidation_fee: 0, index_price_divider: 0, margin_index: 0, index_price: 0 }
    }
}

/// The input wires of a [`L1RegisterAssetTx`].
#[derive(Debug)]
pub struct L1RegisterAssetTxTarget {
    pub asset_index: Target,
    pub extension_multiplier: BigUintTarget,
    pub min_transfer_amount: BigUintTarget,
    pub min_withdrawal_amount: BigUintTarget,
    pub margin_mode: Target,
    pub loan_to_value: Target,
    pub liquidation_threshold: Target,
    pub liquidation_factor: Target,
    pub liquidation_fee: Target,
    pub index_price_divider: Target,
    pub margin_index: Target,
    pub index_price: Target,
}

/// The single-wire inputs of a [`L1RegisterAssetTxTarget`], in field order.
pub open spec fn l1_register_asset_tx_targets(t: L1RegisterAssetTxTarget) -> Seq<Target> {
    seq![t.asset_index, t.margin_mode, t.loan_to_value, t.liquidation_threshold, t.liquidation_factor, t.liquidation_fee, t.index_price_divider, t.margin_index, t.index_price]
}

/// The field values of a [`L1RegisterAssetTx`] on the wires of [`l1_register_asset_tx_targets`].
pub open spec fn l1_register_asset_tx_values(tx: L1RegisterAssetTx) -> Seq<nat> {
    seq![i64_field(tx.asset_index as i64), tx.margin_mode as nat, tx.loan_to_value as nat, tx.liquidation_threshold as nat, tx.liquidation_factor as nat, tx.liquidation_fee as nat, i64_field(tx.index_price_divider), tx.margin_index as nat, i64_field(tx.index_price)]
}

/// Every wire of a [`L1RegisterAssetTxTarget`]: the single-wire inputs, then the limbs of the
/// three amounts.
pub open spec fn l1_register_asset_tx_wires(t: L1RegisterAssetTxTarget) -> Seq<Target> {
    l1_register_asset_tx_targets(t) + (limb_targets(t.extension_multiplier@) + (limb_targets(
        t.min_transfer_amount@,
    ) + limb_targets(t.min_withdrawal_amount@)))
}

impl L1RegisterAssetTxTarget {
    /// Fresh wires for every input, numbered in field order.
    pub fn new(builder: &mut Builder) -> (r: Self)
        requires
            old(builder).num_targets + 15 <= usize::MAX,
        ensures
            r.asset_index.index == old(builder).num_targets + 0,
            r.extension_multiplier@ == fresh_limbs(old(builder)@.num_targets + 1, 2),
            r.min_transfer_amount@ == fresh_limbs(old(builder)@.num_targets + 3, 2),
            r.min_withdrawal_amount@ == fresh_limbs(old(builder)@.num_targets + 5, 2),
            r.margin_mode.index == old(builder).num_targets + 7,
            r.loan_to_value.index == old(builder).num_targets + 8,
            r.liquidation_threshold.index == old(builder).num_targets + 9,
            r.liquidation_factor.index == old(builder).num_targets + 10,
            r.liquidation_fee.index == old(builder).num_targets + 11,
            r.index_price_divider.index == old(builder).num_targets + 12,
            r.margin_index.index == old(builder).num_targets + 13,
            r.index_price.index == old(builder).num_targets + 14,
            final(builder)@ =~= (BuilderView { num_targets: old(builder)@.num_targets + 15, ..old(builder)@ }),
    {
        let asset_index = builder.add_virtual_target();
        let extension_multiplier = builder.add_virtual_biguint_target_unsafe(BIG_U64_LIMBS);
        let min_transfer_amount = builder.add_virtual_biguint_target_unsafe(BIG_U64_LIMBS);
        let min_withdrawal_amount = builder.add_virtual_biguint_target_unsafe(BIG_U64_LIMBS);
        let margin_mode = builder.add_virtual_target();
        let loan_to_value = builder.add_virtual_target();
        let liquidation_threshold = builder.add_virtual_target();
        let liquidation_factor = builder.add_virtual_target();
        let liquidation_fee = builder.add_virtual_target();
        let index_price_divider = builder.add_virtual_target();
        let margin_index = builder.add_virtual_target();
        let index_price = builder.add_virtual_target();
        L1RegisterAssetTxTarget { asset_index, extension_multiplier, min_transfer_amount, min_withdrawal_amount, margin_mode, loan_to_value, liquidation_threshold, liquidation_factor, liquidation_fee, index_price_divider, margin_index, index_price }
    }
}

/// Assigning a [`L1RegisterAssetTx`] to its wires.
pub trait L1RegisterAssetTxTargetWitness {
    fn set_l1_register_asset_tx_target(&mut self, a: &L1RegisterAssetTxTarget, b: &L1RegisterAssetTx) -> Result<(), WitnessError>;
}

impl L1RegisterAssetTxTargetWitness for PartialWitness {
    /// Writes the field value of every input of `b` into its wire in `a`.
    fn set_l1_register_asset_tx_target(&mut self, a: &L1RegisterAssetTxTarget, b: &L1RegisterAssetTx) -> (r: Result<(), WitnessError>)
        ensures
            extends(old(self)@, final(self)@),
            r is Ok ==> targets_hold(final(self)@, l1_register_asset_tx_targets(*a), l1_register_asset_tx_values(*b)),
            r is Ok ==> limbs_set(final(self)@, a.extension_multiplier@) && limbs_val(final(self)@, a.extension_multiplier@) == (b.extension_multiplier as u64) as nat,
            r is Ok ==> limbs_set(final(self)@, a.min_transfer_amount@) && limbs_val(final(self)@, a.min_transfer_amount@) == (b.min_transfer_amount as u64) as nat,
            r is Ok ==> limbs_set(final(self)@, a.min_withdrawal_amount@) && limbs_val(final(self)@, a.min_withdrawal_amount@) == (b.min_withdrawal_amount as u64) as nat,
            a.extension_multiplier@.len() >= BIG_U64_LIMBS && a.min_transfer_amount@.len() >= BIG_U64_LIMBS
                && a.min_withdrawal_amount@.len() >= BIG_U64_LIMBS
                && targets_unset(old(self)@, l1_register_asset_tx_wires(*a))
                && distinct_targets(l1_register_asset_tx_wires(*a)) ==> r is Ok,
    {
        let ghost ready = a.extension_multiplier@.len() >= BIG_U64_LIMBS && a.min_transfer_amount@.len() >= BIG_U64_LIMBS
            && a.min_withdrawal_amount@.len() >= BIG_U64_LIMBS
            && targets_unset(old(self)@, l1_register_asset_tx_wires(*a))
            && distinct_targets(l1_register_asset_tx_wires(*a));
        let ghost singles = l1_register_asset_tx_targets(*a);
        let ghost em = limb_targets(a.extension_multiplier@);
        let ghost mt = limb_targets(a.min_transfer_amount@);
        let ghost mw = limb_targets(a.min_withdrawal_amount@);
        proof {
            if ready {
                lemma_rest_unset(old(self)@, old(self)@, singles, em + (mt + mw));
            }
        }
        let targets = vec![a.asset_index, a.margin_mode, a.loan_to_value, a.liquidation_threshold, a.liquidation_factor, a.liquidation_fee, a.index_price_divider, a.margin_index, a.index_price];
        let values = vec![GoldilocksField::from_canonical_i64(b.asset_index as i64), GoldilocksField::from_canonical_u8(b.margin_mode), GoldilocksField::from_canonical_u16(b.loan_to_value), GoldilocksField::from_canonical_u16(b.liquidation_threshold), GoldilocksField::from_canonical_u16(b.liquidation_factor), GoldilocksField::from_canonical_u32(b.liquidation_fee), GoldilocksField::from_canonical_i64(b.index_price_divider), GoldilocksField::from_canonical_u8(b.margin_index), GoldilocksField::from_canonical_i64(b.index_price)];
        assert(targets@ =~= l1_register_asset_tx_targets(*a));
        assert(values@.map_values(|v: GoldilocksField| v@) =~= l1_register_asset_tx_values(*b));
        match self.set_targets(&targets, &values) {
            Ok(()) => {},
            Err(e) => {
                return Err(e);
            },
        }
        let ghost w0 = self@;
        proof {
            if ready {
                lemma_rest_unset(old(self)@, w0, singles, em + (mt + mw));
                lemma_rest_unset(w0, w0, em, mt + mw);
                lemma_limbs_unset(w0, a.extension_multiplier@);
            }
        }
        match set_biguint_target(self, &a.extension_multiplier, &u64_digits(b.extension_multiplier as u64)) {
            Ok(()) => {},
            Err(e) => {
                return Err(e);
            },
        }
        let ghost w1 = self@;
        proof {
            if ready {
                lemma_limb_frame(w0, w1, a.extension_multiplier@);
                lemma_rest_unset(w0, w1, em, mt + mw);
                lemma_rest_unset(w1, w1, mt, mw);
                lemma_limbs_unset(w1, a.min_transfer_amount@);
            }
        }
        match set_biguint_target(self, &a.min_transfer_amount, &u64_digits(b.min_transfer_amount as u64)) {
            Ok(()) => {},
            Err(e) => {
                return Err(e);
            },
        }
        let ghost w2 = self@;
        proof {
            if ready {
                lemma_limb_frame(w1, w2, a.min_transfer_amount@);
                lemma_rest_unset(w1, w2, mt, mw);
                lemma_limbs_unset(w2, a.min_withdrawal_amount@);
            }
        }
        match set_biguint_target(self, &a.min_withdrawal_amount, &u64_digits(b.min_withdrawal_amount as u64)) {
            Ok(()) => {},
            Err(e) => {
                return Err(e);
            },
        }
        let ghost w3 = self@;
        proof {
            lemma_targets_hold_extend(w0, w3, l1_register_asset_tx_targets(*a), l1_register_asset_tx_values(*b));
            lemma_limbs_extend(w1, w3, a.extension_multiplier@);
            lemma_limbs_extend(w2, w3, a.min_transfer_amount@);
            lemma_limbs_extend(w3, w3, a.min_withdrawal_amount@);
        }
        Ok(())
    }
}

/// A layer-1 update of the system configuration.
#[derive(Clone, Copy, Debug)]
pub struct L1SetSystemConfigTx {
    pub liquidity_pool_index: i64,
    pub staking_pool_index: i64,
    pub liquidity_pool_cooldown_period: i64,
    pub staking_pool_lockup_period: i64,
}

impl Default for L1SetSystemConfigTx {
    fn default() -> (r: Self)
        ensures
            r.liquidity_pool_index == 0 && r.staking_pool_index == 0 && r.liquidity_pool_cooldown_period == 0 && r.staking_pool_lockup_period == 0,
    {
        L1SetSystemConfigTx { liquidity_pool_index: 0, staking_pool_index: 0, liquidity_pool_cooldown_period: 0, staking_pool_lockup_period: 0 }
    }
}

/// The input wires of a [`L1SetSystemConfigTx`].
#[derive(Clone, Copy, Debug)]
pub struct L1SetSystemConfigTxTarget {
    pub liquidity_pool_index: Target,
    pub staking_pool_index: Target,
    pub liquidity_pool_cooldown_period: Target,
    pub staking_pool_lockup_period: Target,
}

/// The single-wire inputs of a [`L1SetSystemConfigTxTarget`], in field order.
pub open spec fn l1_set_system_config_tx_targets(t: L1SetSystemConfigTxTarget) -> Seq<Target> {
    seq![t.liquidity_pool_index, t.staking_pool_index, t.liquidity_pool_cooldown_period, t.staking_pool_lockup_period]
}

/// The field values of a [`L1SetSystemConfigTx`] on the wires of [`l1_set_system_config_tx_targets`].
pub open spec fn l1_set_system_config_tx_values(tx: L1SetSystemConfigTx) -> Seq<nat> {
    seq![i64_field(tx.liquidity_pool_index), i64_field(tx.staking_pool_index), i64_field(tx.liquidity_pool_cooldown_period), i64_field(tx.staking_pool_lockup_period)]
}

impl L1SetSystemConfigTxTarget {
    /// Fresh wires for every input, numbered in field order.
    pub fn new(builder: &mut Builder) -> (r: Self)
        requires
            old(builder).num_targets + 4 <= usize::MAX,
        ensures
            r.liquidity_pool_index.index == old(builder).num_targets + 0,
            r.staking_pool_index.index == old(builder).num_targets + 1,
            r.liquidity_pool_cooldown_period.index == old(builder).num_targets + 2,
            r.staking_pool_lockup_period.index == old(builder).num_targets + 3,
            final(builder)@ =~= (BuilderView { num_targets: old(builder)@.num_targets + 4, ..old(builder)@ }),
    {
        let liquidity_pool_index = builder.add_virtual_target();
        let staking_pool_index = builder.add_virtual_target();
        let liquidity_pool_cooldown_period = builder.add_virtual_target();
        let staking_pool_lockup_period = builder.add_virtual_target();
        L1SetSystemConfigTxTarget { liquidity_pool_index, staking_pool_index, liquidity_pool_cooldown_period, staking_pool_lockup_period }
    }
}

/// Assigning a [`L1SetSystemConfigTx`] to its wires.
pub trait L1SetSystemConfigTxTargetWitness {
    fn set_l1_set_system_config_tx_target(&mut self, a: &L1SetSystemConfigTxTarget, b: &L1SetSystemConfigTx) -> Result<(), WitnessError>;
}

impl L1SetSystemConfigTxTargetWitness for PartialWitness {
    /// Writes the field value of every input of `b` into its wire in `a`.
    fn set_l1_set_system_config_tx_target(&mut self, a: &L1SetSystemConfigTxTarget, b: &L1SetSystemConfigTx) -> (r: Result<(), WitnessError>)
        ensures
            extends(old(self)@, final(self)@),
            r is Ok ==> targets_hold(final(self)@, l1_set_system_config_tx_targets(*a), l1_set_system_config_tx_values(*b)),
            targets_unset(old(self)@, l1_set_system_config_tx_targets(*a)) && distinct_targets(l1_set_system_config_tx_targets(*a)) ==> r is Ok,
    {
        let targets = vec![a.liquidity_pool_index, a.staking_pool_index, a.liquidity_pool_cooldown_period, a.staking_pool_lockup_period];
        let values = vec![GoldilocksField::from_canonical_i64(b.liquidity_pool_index), GoldilocksField::from_canonical_i64(b.staking_pool_index), GoldilocksField::from_canonical_i64(b.liquidity_pool_cooldown_period), GoldilocksField::from_canonical_i64(b.staking_pool_lockup_period)];
        assert(targets@ =~= l1_set_system_config_tx_targets(*a));
        assert(values@.map_values(|v: GoldilocksField| v@) =~= l1_set_system_config_tx_values(*b));
        self.set_targets(&targets, &values)
    }
}

/// A layer-1 update of an asset's parameters.
#[derive(Clone, Copy, Debug)]
pub struct L1UpdateAssetTx {
    pub asset_index: i16,
    pub min_transfer_amount: i64,
    pub min_withdrawal_amount: i64,
    pub margin_mode: u8,
    pub loan_to_value: u16,
    pub liquidation_threshold: u16,
    pub liquidation_factor: u16,
    pub liquidation_fee: u32,
    pub index_price: i64,
    pub index_price_divider: i64,
}

impl Default for L1UpdateAssetTx {
    fn default() -> (r: Self)
        ensures
            r.asset_index == 0 && r.min_transfer_amount == 0 && r.min_withdrawal_amount == 0 && r.margin_mode == 0 && r.loan_to_value == 0 && r.liquidation_threshold == 0 && r.liquidation_factor == 0 && r.liquidation_fee == 0 && r.index_price == 0 && r.index_price_divider == 0,
    {
        L1UpdateAssetTx { asset_index: 0, min_transfer_amount: 0, min_withdrawal_amount: 0, margin_mode: 0, loan_to_value: 0, liquidation_threshold: 0, liquidation_factor: 0, liquidation_fee: 0, index_price: 0, index_price_divider: 0 }
    }
}

/// The input wires of a [`L1UpdateAssetTx`].
#[derive(Debug)]
pub struct L1UpdateAssetTxTarget {
    pub asset_index: Target,
    pub min_transfer_amount: BigUintTarget,
    pub min_withdrawal_amount: BigUintTarget,
    pub margin_mode: Target,
    pub loan_to_value: Target,
    pub liquidation_threshold: Target,
    pub liquidation_factor: Target,
    pub liquidation_fee: Target,
    pub index_price: Target,
    pub index_price_divider: Target,
}

/// The single-wire inputs of a [`L1UpdateAssetTxTarget`], in field order.
pub open spec fn l1_update_asset_tx_targets(t: L1UpdateAssetTxTarget) -> Seq<Target> {
    seq![t.asset_index, t.margin_mode, t.loan_to_value, t.liquidation_threshold, t.liquidation_factor, t.liquidation_fee, t.index_price, t.index_price_divider]
}

/// The field values of a [`L1UpdateAssetTx`] on the wires of [`l1_update_asset_tx_targets`].
pub open spec fn l1_update_asset_tx_values(tx: L1UpdateAssetTx) -> Seq<nat> {
    seq![i64_field(tx.asset_index as i64), tx.margin_mode as nat, tx.loan_to_value as nat, tx.liquidation_threshold as nat, tx.liquidation_factor as nat, tx.liquidation_fee as nat, i64_field(tx.index_price), i64_field(tx.index_price_divider)]
}

/// Every wire of a [`L1UpdateAssetTxTarget`]: the single-wire inputs, then the limbs of the
/// two amounts.
pub open spec fn l1_update_asset_tx_wires(t: L1UpdateAssetTxTarget) -> Seq<Target> {
    l1_update_asset_tx_targets(t) + (limb_targets(t.min_transfer_amount@) + limb_targets(
        t.min_withdrawal_amount@,
    ))
}

impl L1UpdateAssetTxTarget {
    /// Fresh wires for every input, numbered in field order.
    pub fn new(builder: &mut Builder) -> (r: Self)
        requires
            old(builder).num_targets + 12 <= usize::MAX,
        ensures
            r.asset_index.index == old(builder).num_targets + 0,
            r.min_transfer_amount@ == fresh_limbs(old(builder)@.num_targets + 1, 2),
            r.min_withdrawal_amount@ == fresh_limbs(old(builder)@.num_targets + 3, 2),
            r.margin_mode.index == old(builder).num_targets + 5,
            r.loan_to_value.index == old(builder).num_targets + 6,
            r.liquidation_threshold.index == old(builder).num_targets + 7,
            r.liquidation_factor.index == old(builder).num_targets + 8,
            r.liquidation_fee.index == old(builder).num_targets + 9,
            r.index_price.index == old(builder).num_targets + 10,
            r.index_price_divider.index == old(builder).num_targets + 11,
            final(builder)@ =~= (BuilderView { num_targets: old(builder)@.num_targets + 12, ..old(builder)@ }),
    {
        let asset_index = builder.add_virtual_target();
        let min_transfer_amount = builder.add_virtual_biguint_target_unsafe(BIG_U64_LIMBS);
        let min_withdrawal_amount = builder.add_virtual_biguint_target_unsafe(BIG_U64_LIMBS);
        let margin_mode = builder.add_virtual_target();
        let loan_to_value = builder.add_virtual_target();
        let liquidation_threshold = builder.add_virtual_target();
        let liquidation_factor = builder.add_virtual_target();
        let liquidation_fee = builder.add_virtual_target();
        let index_price = builder.add_virtual_target();
        let index_price_divider = builder.add_virtual_target();
        L1UpdateAssetTxTarget { asset_index, min_transfer_amount, min_withdrawal_amount, margin_mode, loan_to_value, liquidation_threshold, liquidation_factor, liquidation_fee, index_price, index_price_divider }
    }
}

/// Assigning a [`L1UpdateAssetTx`] to its wires.
pub trait L1UpdateAssetTxTargetWitness {
    fn set_l1_update_asset_tx_target(&mut self, a: &L1UpdateAssetTxTarget, b: &L1UpdateAssetTx) -> Result<(), WitnessError>;
}

impl L1UpdateAssetTxTargetWitness for PartialWitness {
    /// Writes the field value of every input of `b` into its wire in `a`.
    fn set_l1_update_asset_tx_target(&mut self, a: &L1UpdateAssetTxTarget, b: &L1UpdateAssetTx) -> (r: Result<(), WitnessError>)
        ensures
            extends(old(self)@, final(self)@),
            r is Ok ==> targets_hold(final(self)@, l1_update_asset_tx_targets(*a), l1_update_asset_tx_values(*b)),
            r is Ok ==> limbs_set(final(self)@, a.min_transfer_amount@) && limbs_val(final(self)@, a.min_transfer_amount@) == (b.min_transfer_amount as u64) as nat,
            r is Ok ==> limbs_set(final(self)@, a.min_withdrawal_amount@) && limbs_val(final(self)@, a.min_withdrawal_amount@) == (b.min_withdrawal_amount as u64) as nat,
            a.min_transfer_amount@.len() >= BIG_U64_LIMBS && a.min_withdrawal_amount@.len() >= BIG_U64_LIMBS
                && targets_unset(old(self)@, l1_update_asset_tx_wires(*a))
                && distinct_targets(l1_update_asset_tx_wires(*a)) ==> r is Ok,
    {
        let ghost ready = a.min_transfer_amount@.len() >= BIG_U64_LIMBS && a.min_withdrawal_amount@.len() >= BIG_U64_LIMBS
            && targets_unset(old(self)@, l1_update_asset_tx_wires(*a))
            && distinct_targets(l1_update_asset_tx_wires(*a));
        let ghost singles = l1_update_asset_tx_targets(*a);
        let ghost mt = limb_targets(a.min_transfer_amount@);
        let ghost mw = limb_targets(a.min_withdrawal_amount@);
        proof {
            if ready {
                lemma_rest_unset(old(self)@, old(self)@, singles, mt + mw);
            }
        }
        let targets = vec![a.asset_index, a.margin_mode, a.loan_to_value, a.liquidation_threshold, a.liquidation_factor, a.liquidation_fee, a.index_price, a.index_price_divider];
        let values = vec![GoldilocksField::from_canonical_i64(b.asset_index as i64), GoldilocksField::from_canonical_u8(b.margin_mode), GoldilocksField::from_canonical_u16(b.loan_to_value), GoldilocksField::from_canonical_u16(b.liquidation_threshold), GoldilocksField::from_canonical_u16(b.liquidation_factor), GoldilocksField::from_canonical_u32(b.liquidation_fee), GoldilocksField::from_canonical_i64(b.index_price), GoldilocksField::from_canonical_i64(b.index_price_divider)];
        assert(targets@ =~= l1_update_asset_tx_targets(*a));
        assert(values@.map_values(|v: GoldilocksField| v@) =~= l1_update_asset_tx_values(*b));
        match self.set_targets(&targets, &values) {
            Ok(()) => {},
            Err(e) => {
                return Err(e);
            },
        }
        let ghost w0 = self@;
        proof {
            if ready {
                lemma_rest_unset(old(self)@, w0, singles, mt + mw);
                lemma_rest_unset(w0, w0, mt, mw);
                lemma_limbs_unset(w0, a.min_transfer_amount@);
            }
        }
        match set_biguint_target(self, &a.min_transfer_amount, &u64_digits(b.min_transfer_amount as u64)) {
            Ok(()) => {},
            Err(e) => {
                return Err(e);
            },
        }
        let ghost w1 = self@;
        proof {
            if ready {
                lemma_limb_frame(w0, w1, a.min_transfer_amount@);
                lemma_rest_unset(w0, w1, mt, mw);
                lemma_limbs_unset(w1, a.min_withdrawal_amount@);
            }
        }
        match set_biguint_target(self, &a.min_withdrawal_amount, &u64_digits(b.min_withdrawal_amount as u64)) {
            Ok(()) => {},
            Err(e) => {
                return Err(e);
            },
        }
        let ghost w2 = self@;
        proof {
            lemma_targets_hold_extend(w0, w2, l1_update_asset_tx_targets(*a), l1_update_asset_tx_values(*b));
            lemma_limbs_extend(w1, w2, a.min_transfer_amount@);
            lemma_limbs_extend(w2, w2, a.min_withdrawal_amount@);
        }
        Ok(())
    }
}

/// A layer-2 approval (or revocation) of an integrator's fees.
#[derive(Clone, Copy, Debug)]
pub struct L2ApproveIntegratorTx {
    pub account_index: i64,
    pub api_key_index: u8,
    pub integrator_account_index: i64,
    pub max_perps_taker_fee: u32,
    pub max_perps_maker_fee: u32,
    pub max_spot_taker_fee: u32,
    pub max_spot_maker_fee: u32,
    pub approval_expiry: i64,
}

impl Default for L2ApproveIntegratorTx {
    fn default() -> (r: Self)
        ensures
            r.account_index == 0 && r.api_key_index == 0 && r.integrator_account_index == 0 && r.max_perps_taker_fee == 0 && r.max_perps_maker_fee == 0 && r.max_spot_taker_fee == 0 && r.max_spot_maker_fee == 0 && r.approval_expiry == 0,
    {
        L2ApproveIntegratorTx { account_index: 0, api_key_index: 0, integrator_account_index: 0, max_perps_taker_fee: 0, max_perps_maker_fee: 0, max_spot_taker_fee: 0, max_spot_maker_fee: 0, approval_expiry: 0 }
    }
}

/// The input wires of a [`L2ApproveIntegratorTx`].
#[derive(Clone, Copy, Debug)]
pub struct L2ApproveIntegratorTxTarget {
    pub account_index: Target,
    pub api_key_index: Target,
    pub integrator_account_index: Target,
    pub max_perps_taker_fee: Target,
    pub max_perps_maker_fee: Target,
    pub max_spot_taker_fee: Target,
    pub max_spot_maker_fee: Target,
    pub approval_expiry: Target,
}

/// The single-wire inputs of a [`L2ApproveIntegratorTxTarget`], in field order.
pub open spec fn l2_approve_integrator_tx_targets(t: L2ApproveIntegratorTxTarget) -> Seq<Target> {
    seq![t.account_index, t.api_key_index, t.integrator_account_index, t.max_perps_taker_fee, t.max_perps_maker_fee, t.max_spot_taker_fee, t.max_spot_maker_fee, t.approval_expiry]
}

/// The field values of a [`L2ApproveIntegratorTx`] on the wires of [`l2_approve_integrator_tx_targets`].
pub open spec fn l2_approve_integrator_tx_values(tx: L2ApproveIntegratorTx) -> Seq<nat> {
    seq![i64_field(tx.account_index), tx.api_key_index as nat, i64_field(tx.integrator_account_index), tx.max_perps_taker_fee as nat, tx.max_perps_maker_fee as nat, tx.max_spot_taker_fee as nat, tx.max_spot_maker_fee as nat, i64_field(tx.approval_expiry)]
}

impl L2ApproveIntegratorTxTarget {
    /// Fresh wires for every input, numbered in field order.
    pub fn new(builder: &mut Builder) -> (r: Self)
        requires
            old(builder).num_targets + 8 <= usize::MAX,
        ensures
            r.account_index.index == old(builder).num_targets + 0,
            r.api_key_index.index == old(builder).num_targets + 1,
            r.integrator_account_index.index == old(builder).num_targets + 2,
            r.max_perps_taker_fee.index == old(builder).num_targets + 3,
            r.max_perps_maker_fee.index == old(builder).num_targets + 4,
            r.max_spot_taker_fee.index == old(builder).num_targets + 5,
            r.max_spot_maker_fee.index == old(builder).num_targets + 6,
            r.approval_expiry.index == old(builder).num_targets + 7,
            final(builder)@ =~= (BuilderView { num_targets: old(builder)@.num_targets + 8, ..old(builder)@ }),
    {
        let account_index = builder.add_virtual_target();
        let api_key_index = builder.add_virtual_target();
        let integrator_account_index = builder.add_virtual_target();
        let max_perps_taker_fee = builder.add_virtual_target();
        let max_perps_maker_fee = builder.add_virtual_target();
        let max_spot_taker_fee = builder.add_virtual_target();
        let max_spot_maker_fee = builder.add_virtual_target();
        let approval_expiry = builder.add_virtual_target();
        L2ApproveIntegratorTxTarget { account_index, api_key_index, integrator_account_index, max_perps_taker_fee, max_perps_maker_fee, max_spot_taker_fee, max_spot_maker_fee, approval_expiry }
    }
}

/// Assigning a [`L2ApproveIntegratorTx`] to its wires.
pub trait L2ApproveIntegratorTxTargetWitness {
    fn set_l2_approve_integrator_tx_target(&mut self, a: &L2ApproveIntegratorTxTarget, b: &L2ApproveIntegratorTx) -> Result<(), WitnessError>;
}

impl L2ApproveIntegratorTxTargetWitness for PartialWitness {
    /// Writes the field value of every input of `b` into its wire in `a`.
    fn set_l2_approve_integrator_tx_target(&mut self, a: &L2ApproveIntegratorTxTarget, b: &L2ApproveIntegratorTx) -> (r: Result<(), WitnessError>)
        ensures
            extends(old(self)@, final(self)@),
            r is Ok ==> targets_hold(final(self)@, l2_approve_integrator_tx_targets(*a), l2_approve_integrator_tx_values(*b)),
            targets_unset(old(self)@, l2_approve_integrator_tx_targets(*a)) && distinct_targets(l2_approve_integrator_tx_targets(*a)) ==> r is Ok,
    {
        let targets = vec![a.account_index, a.api_key_index, a.integrator_account_index, a.max_perps_taker_fee, a.max_perps_maker_fee, a.max_spot_taker_fee, a.max_spot_maker_fee, a.approval_expiry];
        let values = vec![GoldilocksField::from_canonical_i64(b.account_index), GoldilocksField::from_canonical_u8(b.api_key_index), GoldilocksField::from_canonical_i64(b.integrator_account_index), GoldilocksField::from_canonical_u32(b.max_perps_taker_fee), GoldilocksField::from_canonical_u32(b.max_perps_maker_fee), GoldilocksField::from_canonical_u32(b.max_spot_taker_fee), GoldilocksField::from_canonical_u32(b.max_spot_maker_fee), GoldilocksField::from_canonical_i64(b.approval_expiry)];
        assert(targets@ =~= l2_approve_integrator_tx_targets(*a));
        assert(values@.map_values(|v: GoldilocksField| v@) =~= l2_approve_integrator_tx_values(*b));
        self.set_targets(&targets, &values)
    }
}

/// A layer-2 creation of a market.
#[derive(Clone, Copy, Debug)]
pub struct L2CreateMarketTx {
    pub account_index: i64,
    pub api_key_index: u8,
    pub market_index: i16,
    pub market_type: u8,
    pub base_asset_id: i16,
    pub quote_asset_id: i16,
    pub start_timestamp: i64,
    pub end_timestamp: i64,
    pub size_extension_multiplier: i64,
    pub quote_extension_multiplier: i64,
    pub taker_fee: u32,
    pub maker_fee: u32,
    pub min_base_amount: i64,
    pub min_quote_amount: i64,
    pub order_quote_limit: i64,
    pub open_interest_limit: i64,
    pub settlement_cap: u32,
    pub settlement_type: u8,
    pub default_price: u32,
    pub is_frozen: u8,
}

impl Default for L2CreateMarketTx {
    fn default() -> (r: Self)
        ensures
            r.account_index == 0 && r.api_key_index == 0 && r.market_index == 0 && r.market_type == 0 && r.base_asset_id == 0 && r.quote_asset_id == 0 && r.start_timestamp == 0 && r.end_timestamp == 0 && r.size_extension_multiplier == 0 && r.quote_extension_multiplier == 0 && r.taker_fee == 0 && r.maker_fee == 0 && r.min_base_amount == 0 && r.min_quote_amount == 0 && r.order_quote_limit == 0 && r.open_interest_limit == 0 && r.settlement_cap == 0 && r.settlement_type == 0 && r.default_price == 0 && r.is_frozen == 0,
    {
        L2CreateMarketTx { account_index: 0, api_key_index: 0, market_index: 0, market_type: 0, base_asset_id: 0, quote_asset_id: 0, start_timestamp: 0, end_timestamp: 0, size_extension_multiplier: 0, quote_extension_multiplier: 0, taker_fee: 0, maker_fee: 0, min_base_amount: 0, min_quote_amount: 0, order_quote_limit: 0, open_interest_limit: 0, settlement_cap: 0, settlement_type: 0, default_price: 0, is_frozen: 0 }
    }
}

/// The input wires of a [`L2CreateMarketTx`].
#[derive(Clone, Copy, Debug)]
pub struct L2CreateMarketTxTarget {
    pub account_index: Target,
    pub api_key_index: Target,
    pub market_index: Target,
    pub market_type: Target,
    pub base_asset_id: Target,
    pub quote_asset_id: Target,
    pub start_timestamp: Target,
    pub end_timestamp: Target,
    pub size_extension_multiplier: Target,
    pub quote_extension_multiplier: Target,
    pub taker_fee: Target,
    pub maker_fee: Target,
    pub min_base_amount: Target,
    pub min_quote_amount: Target,
    pub order_quote_limit: Target,
    pub open_interest_limit: Target,
    pub settlement_cap: Target,
    pub settlement_type: Target,
    pub default_price: Target,
    pub is_frozen: Target,
}

/// The single-wire inputs of a [`L2CreateMarketTxTarget`], in field order.
pub open spec fn l2_create_market_tx_targets(t: L2CreateMarketTxTarget) -> Seq<Target> {
    seq![t.account_index, t.api_key_index, t.market_index, t.market_type, t.base_asset_id, t.quote_asset_id, t.start_timestamp, t.end_timestamp, t.size_extension_multiplier, t.quote_extension_multiplier, t.taker_fee, t.maker_fee, t.min_base_amount, t.min_quote_amount, t.order_quote_limit, t.open_interest_limit, t.settlement_cap, t.settlement_type, t.default_price, t.is_frozen]
}

/// The field values of a [`L2CreateMarketTx`] on the wires of [`l2_create_market_tx_targets`].
pub open spec fn l2_create_market_tx_values(tx: L2CreateMarketTx) -> Seq<nat> {
    seq![i64_field(tx.account_index), tx.api_key_index as nat, i64_field(tx.market_index as i64), tx.market_type as nat, i64_field(tx.base_asset_id as i64), i64_field(tx.quote_asset_id as i64), i64_field(tx.start_timestamp), i64_field(tx.end_timestamp), i64_field(tx.size_extension_multiplier), i64_field(tx.quote_extension_multiplier), tx.taker_fee as nat, tx.maker_fee as nat, i64_field(tx.min_base_amount), i64_field(tx.min_quote_amount), i64_field(tx.order_quote_limit), i64_field(tx.open_interest_limit), tx.settlement_cap as nat, tx.settlement_type as nat, tx.default_price as nat, tx.is_frozen as nat]
}

impl L2CreateMarketTxTarget {
    /// Fresh wires for every input, numbered in field order.
    pub fn new(builder: &mut Builder) -> (r: Self)
        requires
            old(builder).num_targets + 20 <= usize::MAX,
        ensures
            r.account_index.index == old(builder).num_targets + 0,
            r.api_key_index.index == old(builder).num_targets + 1,
            r.market_index.index == old(builder).num_targets + 2,
            r.market_type.index == old(builder).num_targets + 3,
            r.base_asset_id.index == old(builder).num_targets + 4,
            r.quote_asset_id.index == old(builder).num_targets + 5,
            r.start_timestamp.index == old(builder).num_targets + 6,
            r.end_timestamp.index == old(builder).num_targets + 7,
            r.size_extension_multiplier.index == old(builder).num_targets + 8,
            r.quote_extension_multiplier.index == old(builder).num_targets + 9,
            r.taker_fee.index == old(builder).num_targets + 10,
            r.maker_fee.index == old(builder).num_targets + 11,
            r.min_base_amount.index == old(builder).num_targets + 12,
            r.min_quote_amount.index == old(builder).num_targets + 13,
            r.order_quote_limit.index == old(builder).num_targets + 14,
            r.open_interest_limit.index == old(builder).num_targets + 15,
            r.settlement_cap.index == old(builder).num_targets + 16,
            r.settlement_type.index == old(builder).num_targets + 17,
            r.default_price.index == old(builder).num_targets + 18,
            r.is_frozen.index == old(builder).num_targets + 19,
            final(builder)@ =~= (BuilderView { num_targets: old(builder)@.num_targets + 20, ..old(builder)@ }),
    {
        let account_index = builder.add_virtual_target();
        let api_key_index = builder.add_virtual_target();
        let market_index = builder.add_virtual_target();
        let market_type = builder.add_virtual_target();
        let base_asset_id = builder.add_virtual_target();
        let quote_asset_id = builder.add_virtual_target();
        let start_timestamp = builder.add_virtual_target();
        let end_timestamp = builder.add_virtual_target();
        let size_extension_multiplier = builder.add_virtual_target();
        let quote_extension_multiplier = builder.add_virtual_target();
        let taker_fee = builder.add_virtual_target();
        let maker_fee = builder.add_virtual_target();
        let min_base_amount = builder.add_virtual_target();
        let min_quote_amount = builder.add_virtual_target();
        let order_quote_limit = builder.add_virtual_target();
        let open_interest_limit = builder.add_virtual_target();
        let settlement_cap = builder.add_virtual_target();
        let settlement_type = builder.add_virtual_target();
        let default_price = builder.add_virtual_target();
        let is_frozen = builder.add_virtual_target();
        L2CreateMarketTxTarget { account_index, api_key_index, market_index, market_type, base_asset_id, quote_asset_id, start_timestamp, end_timestamp, size_extension_multiplier, quote_extension_multiplier, taker_fee, maker_fee, min_base_amount, min_quote_amount, order_quote_limit, open_interest_limit, settlement_cap, settlement_type, default_price, is_frozen }
    }
}

/// Assigning a [`L2CreateMarketTx`] to its wires.
pub trait L2CreateMarketTxTargetWitness {
    fn set_l2_create_market_tx_target(&mut self, a: &L2CreateMarketTxTarget, b: &L2CreateMarketTx) -> Result<(), WitnessError>;
}

impl L2CreateMarketTxTargetWitness for PartialWitness {
    /// Writes the field value of every input of `b` into its wire in `a`.
    fn set_l2_create_market_tx_target(&mut self, a: &L2CreateMarketTxTarget, b: &L2CreateMarketTx) -> (r: Result<(), WitnessError>)
        ensures
            extends(old(self)@, final(self)@),
            r is Ok ==> targets_hold(final(self)@, l2_create_market_tx_targets(*a), l2_create_market_tx_values(*b)),
            targets_unset(old(self)@, l2_create_market_tx_targets(*a)) && distinct_targets(l2_create_market_tx_targets(*a)) ==> r is Ok,
    {
        let targets = vec![a.account_index, a.api_key_index, a.market_index, a.market_type, a.base_asset_id, a.quote_asset_id, a.start_timestamp, a.end_timestamp, a.size_extension_multiplier, a.quote_extension_multiplier, a.taker_fee, a.maker_fee, a.min_base_amount, a.min_quote_amount, a.order_quote_limit, a.open_interest_limit, a.settlement_cap, a.settlement_type, a.default_price, a.is_frozen];
        let values = vec![GoldilocksField::from_canonical_i64(b.account_index), GoldilocksField::from_canonical_u8(b.api_key_index), GoldilocksField::from_canonical_i64(b.market_index as i64), GoldilocksField::from_canonical_u8(b.market_type), GoldilocksField::from_canonical_i64(b.base_asset_id as i64), GoldilocksField::from_canonical_i64(b.quote_asset_id as i64), GoldilocksField::from_canonical_i64(b.start_timestamp), GoldilocksField::from_canonical_i64(b.end_timestamp), GoldilocksField::from_canonical_i64(b.size_extension_multiplier), GoldilocksField::from_canonical_i64(b.quote_extension_multiplier), GoldilocksField::from_canonical_u32(b.taker_fee), GoldilocksField::from_canonical_u32(b.maker_fee), GoldilocksField::from_canonical_i64(b.min_base_amount), GoldilocksField::from_canonical_i64(b.min_quote_amount), GoldilocksField::from_canonical_i64(b.order_quote_limit), GoldilocksField::from_canonical_i64(b.open_interest_limit), GoldilocksField::from_canonical_u32(b.settlement_cap), GoldilocksField::from_canonical_u8(b.settlement_type), GoldilocksField::from_canonical_u32(b.default_price), GoldilocksField::from_canonical_u8(b.is_frozen)];
        assert(targets@ =~= l2_create_market_tx_targets(*a));
        assert(values@.map_values(|v: GoldilocksField| v@) =~= l2_create_market_tx_values(*b));
        self.set_targets(&targets, &values)
    }
}

/// A layer-2 order.
#[derive(Clone, Copy, Debug)]
pub struct L2CreateOrderTx {
    pub account_index: i64,
    pub api_key_index: u8,
    pub market_index: u16,
    pub client_order_index: i64,
    pub order_type: u8,
    pub time_in_force: u8,
    pub order_expiry: i64,
    pub base_amount: i64,
    pub price: i64,
    pub is_ask: u8,
    pub reduce_only: u8,
    pub trigger_price: u32,
}

impl Default for L2CreateOrderTx {
    fn default() -> (r: Self)
        ensures
            r.account_index == 0 && r.api_key_index == 0 && r.market_index == 0 && r.client_order_index == 0 && r.order_type == 0 && r.time_in_force == 0 && r.order_expiry == 0 && r.base_amount == 0 && r.price == 0 && r.is_ask == 0 && r.reduce_only == 0 && r.trigger_price == 0,
    {
        L2CreateOrderTx { account_index: 0, api_key_index: 0, market_index: 0, client_order_index: 0, order_type: 0, time_in_force: 0, order_expiry: 0, base_amount: 0, price: 0, is_ask: 0, reduce_only: 0, trigger_price: 0 }
    }
}

/// The input wires of a [`L2CreateOrderTx`].
#[derive(Clone, Copy, Debug)]
pub struct L2CreateOrderTxTarget {
    pub account_index: Target,
    pub api_key_index: Target,
    pub market_index: Target,
    pub client_order_index: Target,
    pub base_amount: Target,
    pub price: Target,
    pub is_ask: BoolTarget,
    pub order_type: Target,
    pub time_in_force: Target,
    pub reduce_only: Target,
    pub trigger_price: Target,
    pub order_expiry: Target,
}

/// The single-wire inputs of a [`L2CreateOrderTxTarget`], in field order.
pub open spec fn l2_create_order_tx_targets(t: L2CreateOrderTxTarget) -> Seq<Target> {
    seq![t.account_index, t.api_key_index, t.market_index, t.client_order_index, t.base_amount, t.price, t.is_ask.target, t.order_type, t.time_in_force, t.reduce_only, t.trigger_price, t.order_expiry]
}

/// The field values of a [`L2CreateOrderTx`] on the wires of [`l2_create_order_tx_targets`].
pub open spec fn l2_create_order_tx_values(tx: L2CreateOrderTx) -> Seq<nat> {
    seq![i64_field(tx.account_index), tx.api_key_index as nat, tx.market_index as nat, i64_field(tx.client_order_index), i64_field(tx.base_amount), i64_field(tx.price), (if tx.is_ask == 1 { 1nat } else { 0nat }), tx.order_type as nat, tx.time_in_force as nat, tx.reduce_only as nat, tx.trigger_price as nat, i64_field(tx.order_expiry)]
}

impl L2CreateOrderTxTarget {
    /// Fresh wires for every input, numbered in field order.
    pub fn new(builder: &mut Builder) -> (r: Self)
        requires
            old(builder).num_targets + 12 <= usize::MAX,
        ensures
            r.account_index.index == old(builder).num_targets + 0,
            r.api_key_index.index == old(builder).num_targets + 1,
            r.market_index.index == old(builder).num_targets + 2,
            r.client_order_index.index == old(builder).num_targets + 3,
            r.base_amount.index == old(builder).num_targets + 4,
            r.price.index == old(builder).num_targets + 5,
            r.is_ask.target.index == old(builder).num_targets + 6,
            r.order_type.index == old(builder).num_targets + 7,
            r.time_in_force.index == old(builder).num_targets + 8,
            r.reduce_only.index == old(builder).num_targets + 9,
            r.trigger_price.index == old(builder).num_targets + 10,
            r.order_expiry.index == old(builder).num_targets + 11,
            final(builder)@ =~= (BuilderView {
                num_targets: old(builder)@.num_targets + 12,
                relations: old(builder)@.relations.push(RelationView::IsBool { target: r.is_ask.target }),
                ..old(builder)@
            }),
    {
        let account_index = builder.add_virtual_target();
        let api_key_index = builder.add_virtual_target();
        let market_index = builder.add_virtual_target();
        let client_order_index = builder.add_virtual_target();
        let base_amount = builder.add_virtual_target();
        let price = builder.add_virtual_target();
        let is_ask = builder.add_virtual_bool_target_safe();
        let order_type = builder.add_virtual_target();
        let time_in_force = builder.add_virtual_target();
        let reduce_only = builder.add_virtual_target();
        let trigger_price = builder.add_virtual_target();
        let order_expiry = builder.add_virtual_target();
        L2CreateOrderTxTarget { account_index, api_key_index, market_index, client_order_index, base_amount, price, is_ask, order_type, time_in_force, reduce_only, trigger_price, order_expiry }
    }
}

/// Assigning a [`L2CreateOrderTx`] to its wires.
pub trait L2CreateOrderTxTargetWitness {
    fn set_l2_create_order_tx_target(&mut self, a: &L2CreateOrderTxTarget, b: &L2CreateOrderTx) -> Result<(), WitnessError>;
}

impl L2CreateOrderTxTargetWitness for PartialWitness {
    /// Writes the field value of every input of `b` into its wire in `a`.
    fn set_l2_create_order_tx_target(&mut self, a: &L2CreateOrderTxTarget, b: &L2CreateOrderTx) -> (r: Result<(), WitnessError>)
        ensures
            extends(old(self)@, final(self)@),
            r is Ok ==> targets_hold(final(self)@, l2_create_order_tx_targets(*a), l2_create_order_tx_values(*b)),
            targets_unset(old(self)@, l2_create_order_tx_targets(*a)) && distinct_targets(l2_create_order_tx_targets(*a)) ==> r is Ok,
    {
        let targets = vec![a.account_index, a.api_key_index, a.market_index, a.client_order_index, a.base_amount, a.price, a.is_ask.target, a.order_type, a.time_in_force, a.reduce_only, a.trigger_price, a.order_expiry];
        let values = vec![GoldilocksField::from_canonical_i64(b.account_index), GoldilocksField::from_canonical_u8(b.api_key_index), GoldilocksField::from_canonical_u16(b.market_index), GoldilocksField::from_canonical_i64(b.client_order_index), GoldilocksField::from_canonical_i64(b.base_amount), GoldilocksField::from_canonical_i64(b.price), GoldilocksField::from_bool(b.is_ask == 1), GoldilocksField::from_canonical_u8(b.order_type), GoldilocksField::from_canonical_u8(b.time_in_force), GoldilocksField::from_canonical_u8(b.reduce_only), GoldilocksField::from_canonical_u32(b.trigger_price), GoldilocksField::from_canonical_i64(b.order_expiry)];
        assert(targets@ =~= l2_create_order_tx_targets(*a));
        assert(values@.map_values(|v: GoldilocksField| v@) =~= l2_create_order_tx_values(*b));
        self.set_targets(&targets, &values)
    }
}

/// A layer-2 creation of a public pool.
#[derive(Clone, Copy, Debug)]
pub struct L2CreatePublicPoolTx {
    pub account_index: i64,
    pub api_key_index: u8,
    pub operator_fee: i64,
    pub initial_total_shares: i64,
    pub min_operator_share_rate: i64,
}

impl Default for L2CreatePublicPoolTx {
    fn default() -> (r: Self)
        ensures
            r.account_index == 0 && r.api_key_index == 0 && r.operator_fee == 0 && r.initial_total_shares == 0 && r.min_operator_share_rate == 0,
    {
        L2CreatePublicPoolTx { account_index: 0, api_key_index: 0, operator_fee: 0, initial_total_shares: 0, min_operator_share_rate: 0 }
    }
}

/// The input wires of a [`L2CreatePublicPoolTx`].
#[derive(Clone, Copy, Debug)]
pub struct L2CreatePublicPoolTxTarget {
    pub account_index: Target,
    pub api_key_index: Target,
    pub operator_fee: Target,
    pub initial_total_shares: Target,
    pub min_operator_share_rate: Target,
}

/// The single-wire inputs of a [`L2CreatePublicPoolTxTarget`], in field order.
pub open spec fn l2_create_public_pool_tx_targets(t: L2CreatePublicPoolTxTarget) -> Seq<Target> {
    seq![t.account_index, t.api_key_index, t.operator_fee, t.initial_total_shares, t.min_operator_share_rate]
}

/// The field values of a [`L2CreatePublicPoolTx`] on the wires of [`l2_create_public_pool_tx_targets`].
pub open spec fn l2_create_public_pool_tx_values(tx: L2CreatePublicPoolTx) -> Seq<nat> {
    seq![i64_field(tx.account_index), tx.api_key_index as nat, i64_field(tx.operator_fee), i64_field(tx.initial_total_shares), i64_field(tx.min_operator_share_rate)]
}

impl L2CreatePublicPoolTxTarget {
    /// Fresh wires for every input, numbered in field order.
    pub fn new(builder: &mut Builder) -> (r: Self)
        requires
            old(builder).num_targets + 5 <= usize::MAX,
        ensures
            r.account_index.index == old(builder).num_targets + 0,
            r.api_key_index.index == old(builder).num_targets + 1,
            r.operator_fee.index == old(builder).num_targets + 2,
            r.initial_total_shares.index == old(builder).num_targets + 3,
            r.min_operator_share_rate.index == old(builder).num_targets + 4,
            final(builder)@ =~= (BuilderView { num_targets: old(builder)@.num_targets + 5, ..old(builder)@ }),
    {
        let account_index = builder.add_virtual_target();
        let api_key_index = builder.add_virtual_target();
        let operator_fee = builder.add_virtual_target();
        let initial_total_shares = builder.add_virtual_target();
        let min_operator_share_rate = builder.add_virtual_target();
        L2CreatePublicPoolTxTarget { account_index, api_key_index, operator_fee, initial_total_shares, min_operator_share_rate }
    }
}

/// Assigning a [`L2CreatePublicPoolTx`] to its wires.
pub trait L2CreatePublicPoolTxTargetWitness {
    fn set_l2_create_public_pool_tx_target(&mut self, a: &L2CreatePublicPoolTxTarget, b: &L2CreatePublicPoolTx) -> Result<(), WitnessError>;
}

impl L2CreatePublicPoolTxTargetWitness for PartialWitness {
    /// Writes the field value of every input of `b` into its wire in `a`.
    fn set_l2_create_public_pool_tx_target(&mut self, a: &L2CreatePublicPoolTxTarget, b: &L2CreatePublicPoolTx) -> (r: Result<(), WitnessError>)
        ensures
            extends(old(self)@, final(self)@),
            r is Ok ==> targets_hold(final(self)@, l2_create_public_pool_tx_targets(*a), l2_create_public_pool_tx_values(*b)),
            targets_unset(old(self)@, l2_create_public_pool_tx_targets(*a)) && distinct_targets(l2_create_public_pool_tx_targets(*a)) ==> r is Ok,
    {
        let targets = vec![a.account_index, a.api_key_index, a.operator_fee, a.initial_total_shares, a.min_operator_share_rate];
        let values = vec![GoldilocksField::from_canonical_i64(b.account_index), GoldilocksField::from_canonical_u8(b.api_key_index), GoldilocksField::from_canonical_i64(b.operator_fee), GoldilocksField::from_canonical_i64(b.initial_total_shares), GoldilocksField::from_canonical_i64(b.min_operator_share_rate)];
        assert(targets@ =~= l2_create_public_pool_tx_targets(*a));
        assert(values@.map_values(|v: GoldilocksField| v@) =~= l2_create_public_pool_tx_values(*b));
        self.set_targets(&targets, &values)
    }
}

/// A layer-2 creation of a staking pool.
#[derive(Clone, Copy, Debug)]
pub struct L2CreateStakingPoolTx {
    pub account_index: i64,
    pub api_key_index: u8,
    pub initial_total_shares: i64,
    pub min_operator_share_rate: i64,
}

impl Default for L2CreateStakingPoolTx {
    fn default() -> (r: Self)
        ensures
            r.account_index == 0 && r.api_key_index == 0 && r.initial_total_shares == 0 && r.min_operator_share_rate == 0,
    {
        L2CreateStakingPoolTx { account_index: 0, api_key_index: 0, initial_total_shares: 0, min_operator_share_rate: 0 }
    }
}

/// The input wires of a [`L2CreateStakingPoolTx`].
#[derive(Clone, Copy, Debug)]
pub struct L2CreateStakingPoolTxTarget {
    pub account_index: Target,
    pub api_key_index: Target,
    pub initial_total_shares: Target,
    pub min_operator_share_rate: Target,
}

/// The single-wire inputs of a [`L2CreateStakingPoolTxTarget`], in field order.
pub open spec fn l2_create_staking_pool_tx_targets(t: L2CreateStakingPoolTxTarget) -> Seq<Target> {
    seq![t.account_index, t.api_key_index, t.initial_total_shares, t.min_operator_share_rate]
}

/// The field values of a [`L2CreateStakingPoolTx`] on the wires of [`l2_create_staking_pool_tx_targets`].
pub open spec fn l2_create_staking_pool_tx_values(tx: L2CreateStakingPoolTx) -> Seq<nat> {
    seq![i64_field(tx.account_index), tx.api_key_index as nat, i64_field(tx.initial_total_shares), i64_field(tx.min_operator_share_rate)]
}

impl L2CreateStakingPoolTxTarget {
    /// Fresh wires for every input, numbered in field order.
    pub fn new(builder: &mut Builder) -> (r: Self)
        requires
            old(builder).num_targets + 4 <= usize::MAX,
        ensures
            r.account_index.index == old(builder).num_targets + 0,
            r.api_key_index.index == old(builder).num_targets + 1,
            r.initial_total_shares.index == old(builder).num_targets + 2,
            r.min_operator_share_rate.index == old(builder).num_targets + 3,
            final(builder)@ =~= (BuilderView { num_targets: old(builder)@.num_targets + 4, ..old(builder)@ }),
    {
        let account_index = builder.add_virtual_target();
        let api_key_index = builder.add_virtual_target();
        let initial_total_shares = builder.add_virtual_target();
        let min_operator_share_rate = builder.add_virtual_target();
        L2CreateStakingPoolTxTarget { account_index, api_key_index, initial_total_shares, min_operator_share_rate }
    }
}

/// Assigning a [`L2CreateStakingPoolTx`] to its wires.
pub trait L2CreateStakingPoolTxTargetWitness {
    fn set_l2_create_staking_pool_tx_target(&mut self, a: &L2CreateStakingPoolTxTarget, b: &L2CreateStakingPoolTx) -> Result<(), WitnessError>;
}

impl L2CreateStakingPoolTxTargetWitness for PartialWitness {
    /// Writes the field value of every input of `b` into its wire in `a`.
    fn set_l2_create_staking_pool_tx_target(&mut self, a: &L2CreateStakingPoolTxTarget, b: &L2CreateStakingPoolTx) -> (r: Result<(), WitnessError>)
        ensures
            extends(old(self)@, final(self)@),
            r is Ok ==> targets_hold(final(self)@, l2_create_staking_pool_tx_targets(*a), l2_create_staking_pool_tx_values(*b)),
            targets_unset(old(self)@, l2_create_staking_pool_tx_targets(*a)) && distinct_targets(l2_create_staking_pool_tx_targets(*a)) ==> r is Ok,
    {
        let targets = vec![a.account_index, a.api_key_index, a.initial_total_shares, a.min_operator_share_rate];
        let values = vec![GoldilocksField::from_canonical_i64(b.account_index), GoldilocksField::from_canonical_u8(b.api_key_index), GoldilocksField::from_canonical_i64(b.initial_total_shares), GoldilocksField::from_canonical_i64(b.min_operator_share_rate)];
        assert(targets@ =~= l2_create_staking_pool_tx_targets(*a));
        assert(values@.map_values(|v: GoldilocksField| v@) =~= l2_create_staking_pool_tx_values(*b));
        self.set_targets(&targets, &values)
    }
}

/// A layer-2 forced burn of a depositor's pool shares.
#[derive(Clone, Copy, Debug)]
pub struct L2ForceBurnSharesTx {
    pub account_index: i64,
    pub api_key_index: u8,
    pub depositor_index: i64,
    pub share_amount: i64,
}

impl Default for L2ForceBurnSharesTx {
    fn default() -> (r: Self)
        ensures
            r.account_index == 0 && r.api_key_index == 0 && r.depositor_index == 0 && r.share_amount == 0,
    {
        L2ForceBurnSharesTx { account_index: 0, api_key_index: 0, depositor_index: 0, share_amount: 0 }
    }
}

/// The input wires of a [`L2ForceBurnSharesTx`].
#[derive(Clone, Copy, Debug)]
pub struct L2ForceBurnSharesTxTarget {
    pub account_index: Target,
    pub api_key_index: Target,
    pub depositor_index: Target,
    pub share_amount: Target,
}

/// The single-wire inputs of a [`L2ForceBurnSharesTxTarget`], in field order.
pub open spec fn l2_force_burn_shares_tx_targets(t: L2ForceBurnSharesTxTarget) -> Seq<Target> {
    seq![t.account_index, t.api_key_index, t.depositor_index, t.share_amount]
}

/// The field values of a [`L2ForceBurnSharesTx`] on the wires of [`l2_force_burn_shares_tx_targets`].
pub open spec fn l2_force_burn_shares_tx_values(tx: L2ForceBurnSharesTx) -> Seq<nat> {
    seq![i64_field(tx.account_index), tx.api_key_index as nat, i64_field(tx.depositor_index), i64_field(tx.share_amount)]
}

impl L2ForceBurnSharesTxTarget {
    /// Fresh wires for every input, numbered in field order.
    pub fn new(builder: &mut Builder) -> (r: Self)
        requires
            old(builder).num_targets + 4 <= usize::MAX,
        ensures
            r.account_index.index == old(builder).num_targets + 0,
            r.api_key_index.index == old(builder).num_targets + 1,
            r.depositor_index.index == old(builder).num_targets + 2,
            r.share_amount.index == old(builder).num_targets + 3,
            final(builder)@ =~= (BuilderView { num_targets: old(builder)@.num_targets + 4, ..old(builder)@ }),
    {
        let account_index = builder.add_virtual_target();
        let api_key_index = builder.add_virtual_target();
        let depositor_index = builder.add_virtual_target();
        let share_amount = builder.add_virtual_target();
        L2ForceBurnSharesTxTarget { account_index, api_key_index, depositor_index, share_amount }
    }
}

/// Assigning a [`L2ForceBurnSharesTx`] to its wires.
pub trait L2ForceBurnSharesTxTargetWitness {
    fn set_l2_force_burn_shares_tx_target(&mut self, a: &L2ForceBurnSharesTxTarget, b: &L2ForceBurnSharesTx) -> Result<(), WitnessError>;
}

impl L2ForceBurnSharesTxTargetWitness for PartialWitness {
    /// Writes the field value of every input of `b` into its wire in `a`.
    fn set_l2_force_burn_shares_tx_target(&mut self, a: &L2ForceBurnSharesTxTarget, b: &L2ForceBurnSharesTx) -> (r: Result<(), WitnessError>)
        ensures
            extends(old(self)@, final(self)@),
            r is Ok ==> targets_hold(final(self)@, l2_force_burn_shares_tx_targets(*a), l2_force_burn_shares_tx_values(*b)),
            targets_unset(old(self)@, l2_force_burn_shares_tx_targets(*a)) && distinct_targets(l2_force_burn_shares_tx_targets(*a)) ==> r is Ok,
    {
        let targets = vec![a.account_index, a.api_key_index, a.depositor_index, a.share_amount];
        let values = vec![GoldilocksField::from_canonical_i64(b.account_index), GoldilocksField::from_canonical_u8(b.api_key_index), GoldilocksField::from_canonical_i64(b.depositor_index), GoldilocksField::from_canonical_i64(b.share_amount)];
        assert(targets@ =~= l2_force_burn_shares_tx_targets(*a));
        assert(values@.map_values(|v: GoldilocksField| v@) =~= l2_force_burn_shares_tx_values(*b));
        self.set_targets(&targets, &values)
    }
}

/// A layer-2 mint of public pool shares.
#[derive(Clone, Copy, Debug)]
pub struct L2MintSharesTx {
    pub account_index: i64,
    pub api_key_index: u8,
    pub public_pool_index: i64,
    pub share_amount: i64,
}

impl Default for L2MintSharesTx {
    fn default() -> (r: Self)
        ensures
            r.account_index == 0 && r.api_key_index == 0 && r.public_pool_index == 0 && r.share_amount == 0,
    {
        L2MintSharesTx { account_index: 0, api_key_index: 0, public_pool_index: 0, share_amount: 0 }
    }
}

/// The input wires of a [`L2MintSharesTx`].
#[derive(Clone, Copy, Debug)]
pub struct L2MintSharesTxTarget {
    pub account_index: Target,
    pub api_key_index: Target,
    pub public_pool_index: Target,
    pub share_amount: Target,
}

/// The single-wire inputs of a [`L2MintSharesTxTarget`], in field order.
pub open spec fn l2_mint_shares_tx_targets(t: L2MintSharesTxTarget) -> Seq<Target> {
    seq![t.account_index, t.api_key_index, t.public_pool_index, t.share_amount]
}

/// The field values of a [`L2MintSharesTx`] on the wires of [`l2_mint_shares_tx_targets`].
pub open spec fn l2_mint_shares_tx_values(tx: L2MintSharesTx) -> Seq<nat> {
    seq![i64_field(tx.account_index), tx.api_key_index as nat, i64_field(tx.public_pool_index), i64_field(tx.share_amount)]
}

impl L2MintSharesTxTarget {
    /// Fresh wires for every input, numbered in field order.
    pub fn new(builder: &mut Builder) -> (r: Self)
        requires
            old(builder).num_targets + 4 <= usize::MAX,
        ensures
            r.account_index.index == old(builder).num_targets + 0,
            r.api_key_index.index == old(builder).num_targets + 1,
            r.public_pool_index.index == old(builder).num_targets + 2,
            r.share_amount.index == old(builder).num_targets + 3,
            final(builder)@ =~= (BuilderView { num_targets: old(builder)@.num_targets + 4, ..old(builder)@ }),
    {
        let account_index = builder.add_virtual_target();
        let api_key_index = builder.add_virtual_target();
        let public_pool_index = builder.add_virtual_target();
        let share_amount = builder.add_virtual_target();
        L2MintSharesTxTarget { account_index, api_key_index, public_pool_index, share_amount }
    }
}

/// Assigning a [`L2MintSharesTx`] to its wires.
pub trait L2MintSharesTxTargetWitness {
    fn set_l2_mint_shares_tx_target(&mut self, a: &L2MintSharesTxTarget, b: &L2MintSharesTx) -> Result<(), WitnessError>;
}

impl L2MintSharesTxTargetWitness for PartialWitness {
    /// Writes the field value of every input of `b` into its wire in `a`.
    fn set_l2_mint_shares_tx_target(&mut self, a: &L2MintSharesTxTarget, b: &L2MintSharesTx) -> (r: Result<(), WitnessError>)
        ensures
            extends(old(self)@, final(self)@),
            r is Ok ==> targets_hold(final(self)@, l2_mint_shares_tx_targets(*a), l2_mint_shares_tx_values(*b)),
            targets_unset(old(self)@, l2_mint_shares_tx_targets(*a)) && distinct_targets(l2_mint_shares_tx_targets(*a)) ==> r is Ok,
    {
        let targets = vec![a.account_index, a.api_key_index, a.public_pool_index, a.share_amount];
        let values = vec![GoldilocksField::from_canonical_i64(b.account_index), GoldilocksField::from_canonical_u8(b.api_key_index), GoldilocksField::from_canonical_i64(b.public_pool_index), GoldilocksField::from_canonical_i64(b.share_amount)];
        assert(targets@ =~= l2_mint_shares_tx_targets(*a));
        assert(values@.map_values(|v: GoldilocksField| v@) =~= l2_mint_shares_tx_values(*b));
        self.set_targets(&targets, &values)
    }
}

/// A layer-2 settlement of a binary options market's outcome.
#[derive(Clone, Copy, Debug)]
pub struct L2SettleOutcomeTx {
    pub account_index: i64,
    pub api_key_index: u8,
    pub market_index: i16,
    pub public_market_index: i64,
    pub settlement_price: u32,
    pub is_refund: u8,
}

impl Default for L2SettleOutcomeTx {
    fn default() -> (r: Self)
        ensures
            r.account_index == 0 && r.api_key_index == 0 && r.market_index == 0 && r.public_market_index == 0 && r.settlement_price == 0 && r.is_refund == 0,
    {
        L2SettleOutcomeTx { account_index: 0, api_key_index: 0, market_index: 0, public_market_index: 0, settlement_price: 0, is_refund: 0 }
    }
}

/// The input wires of a [`L2SettleOutcomeTx`].
#[derive(Clone, Copy, Debug)]
pub struct L2SettleOutcomeTxTarget {
    pub account_index: Target,
    pub api_key_index: Target,
    pub market_index: Target,
    pub public_market_index: Target,
    pub settlement_price: Target,
    pub is_refund: Target,
}

/// The single-wire inputs of a [`L2SettleOutcomeTxTarget`], in field order.
pub open spec fn l2_settle_outcome_tx_targets(t: L2SettleOutcomeTxTarget) -> Seq<Target> {
    seq![t.account_index, t.api_key_index, t.market_index, t.public_market_index, t.settlement_price, t.is_refund]
}

/// The field values of a [`L2SettleOutcomeTx`] on the wires of [`l2_settle_outcome_tx_targets`].
pub open spec fn l2_settle_outcome_tx_values(tx: L2SettleOutcomeTx) -> Seq<nat> {
    seq![i64_field(tx.account_index), tx.api_key_index as nat, i64_field(tx.market_index as i64), i64_field(tx.public_market_index), tx.settlement_price as nat, tx.is_refund as nat]
}

impl L2SettleOutcomeTxTarget {
    /// Fresh wires for every input, numbered in field order.
    pub fn new(builder: &mut Builder) -> (r: Self)
        requires
            old(builder).num_targets + 6 <= usize::MAX,
        ensures
            r.account_index.index == old(builder).num_targets + 0,
            r.api_key_index.index == old(builder).num_targets + 1,
            r.market_index.index == old(builder).num_targets + 2,
            r.public_market_index.index == old(builder).num_targets + 3,
            r.settlement_price.index == old(builder).num_targets + 4,
            r.is_refund.index == old(builder).num_targets + 5,
            final(builder)@ =~= (BuilderView { num_targets: old(builder)@.num_targets + 6, ..old(builder)@ }),
    {
        let account_index = builder.add_virtual_target();
        let api_key_index = builder.add_virtual_target();
        let market_index = builder.add_virtual_target();
        let public_market_index = builder.add_virtual_target();
        let settlement_price = builder.add_virtual_target();
        let is_refund = builder.add_virtual_target();
        L2SettleOutcomeTxTarget { account_index, api_key_index, market_index, public_market_index, settlement_price, is_refund }
    }
}

/// Assigning a [`L2SettleOutcomeTx`] to its wires.
pub trait L2SettleOutcomeTxTargetWitness {
    fn set_l2_settle_outcome_tx_target(&mut self, a: &L2SettleOutcomeTxTarget, b: &L2SettleOutcomeTx) -> Result<(), WitnessError>;
}

impl L2SettleOutcomeTxTargetWitness for PartialWitness {
    /// Writes the field value of every input of `b` into its wire in `a`.
    fn set_l2_settle_outcome_tx_target(&mut self, a: &L2SettleOutcomeTxTarget, b: &L2SettleOutcomeTx) -> (r: Result<(), WitnessError>)
        ensures
            extends(old(self)@, final(self)@),
            r is Ok ==> targets_hold(final(self)@, l2_settle_outcome_tx_targets(*a), l2_settle_outcome_tx_values(*b)),
            targets_unset(old(self)@, l2_settle_outcome_tx_targets(*a)) && distinct_targets(l2_settle_outcome_tx_targets(*a)) ==> r is Ok,
    {
        let targets = vec![a.account_index, a.api_key_index, a.market_index, a.public_market_index, a.settlement_price, a.is_refund];
        let values = vec![GoldilocksField::from_canonical_i64(b.account_index), GoldilocksField::from_canonical_u8(b.api_key_index), GoldilocksField::from_canonical_i64(b.market_index as i64), GoldilocksField::from_canonical_i64(b.public_market_index), GoldilocksField::from_canonical_u32(b.settlement_price), GoldilocksField::from_canonical_u8(b.is_refund)];
        assert(targets@ =~= l2_settle_outcome_tx_targets(*a));
        assert(values@.map_values(|v: GoldilocksField| v@) =~= l2_settle_outcome_tx_values(*b));
        self.set_targets(&targets, &values)
    }
}

/// A layer-2 stake of assets into a staking pool.
#[derive(Clone, Copy, Debug)]
pub struct L2StakeAssetsTx {
    pub account_index: i64,
    pub api_key_index: u8,
    pub staking_pool_index: i64,
    pub share_amount: i64,
}

impl Default for L2StakeAssetsTx {
    fn default() -> (r: Self)
        ensures
            r.account_index == 0 && r.api_key_index == 0 && r.staking_pool_index == 0 && r.share_amount == 0,
    {
        L2StakeAssetsTx { account_index: 0, api_key_index: 0, staking_pool_index: 0, share_amount: 0 }
    }
}

/// The input wires of a [`L2StakeAssetsTx`].
#[derive(Clone, Copy, Debug)]
pub struct L2StakeAssetsTxTarget {
    pub account_index: Target,
    pub api_key_index: Target,
    pub staking_pool_index: Target,
    pub share_amount: Target,
}

/// The single-wire inputs of a [`L2StakeAssetsTxTarget`], in field order.
pub open spec fn l2_stake_assets_tx_targets(t: L2StakeAssetsTxTarget) -> Seq<Target> {
    seq![t.account_index, t.api_key_index, t.staking_pool_index, t.share_amount]
}

/// The field values of a [`L2StakeAssetsTx`] on the wires of [`l2_stake_assets_tx_targets`].
pub open spec fn l2_stake_assets_tx_values(tx: L2StakeAssetsTx) -> Seq<nat> {
    seq![i64_field(tx.account_index), tx.api_key_index as nat, i64_field(tx.staking_pool_index), i64_field(tx.share_amount)]
}

impl L2StakeAssetsTxTarget {
    /// Fresh wires for every input, numbered in field order.
    pub fn new(builder: &mut Builder) -> (r: Self)
        requires
            old(builder).num_targets + 4 <= usize::MAX,
        ensures
            r.account_index.index == old(builder).num_targets + 0,
            r.api_key_index.index == old(builder).num_targets + 1,
            r.staking_pool_index.index == old(builder).num_targets + 2,
            r.share_amount.index == old(builder).num_targets + 3,
            final(builder)@ =~= (BuilderView { num_targets: old(builder)@.num_targets + 4, ..old(builder)@ }),
    {
        let account_index = builder.add_virtual_target();
        let api_key_index = builder.add_virtual_target();
        let staking_pool_index = builder.add_virtual_target();
        let share_amount = builder.add_virtual_target();
        L2StakeAssetsTxTarget { account_index, api_key_index, staking_pool_index, share_amount }
    }
}

/// Assigning a [`L2StakeAssetsTx`] to its wires.
pub trait L2StakeAssetsTxTargetWitness {
    fn set_l2_stake_assets_tx_target(&mut self, a: &L2StakeAssetsTxTarget, b: &L2StakeAssetsTx) -> Result<(), WitnessError>;
}

impl L2StakeAssetsTxTargetWitness for PartialWitness {
    /// Writes the field value of every input of `b` into its wire in `a`.
    fn set_l2_stake_assets_tx_target(&mut self, a: &L2StakeAssetsTxTarget, b: &L2StakeAssetsTx) -> (r: Result<(), WitnessError>)
        ensures
            extends(old(self)@, final(self)@),
            r is Ok ==> targets_hold(final(self)@, l2_stake_assets_tx_targets(*a), l2_stake_assets_tx_values(*b)),
            targets_unset(old(self)@, l2_stake_assets_tx_targets(*a)) && distinct_targets(l2_stake_assets_tx_targets(*a)) ==> r is Ok,
    {
        let targets = vec![a.account_index, a.api_key_index, a.staking_pool_index, a.share_amount];
        let values = vec![GoldilocksField::from_canonical_i64(b.account_index), GoldilocksField::from_canonical_u8(b.api_key_index), GoldilocksField::from_canonical_i64(b.staking_pool_index), GoldilocksField::from_canonical_i64(b.share_amount)];
        assert(targets@ =~= l2_stake_assets_tx_targets(*a));
        assert(values@.map_values(|v: GoldilocksField| v@) =~= l2_stake_assets_tx_values(*b));
        self.set_targets(&targets, &values)
    }
}

/// An internal transfer of an asset between two accounts.
#[derive(Clone, Debug)]
pub struct InternalTransferTx {
    pub from_account_index: i64,
    pub to_account_index: i64,
    pub asset_index: i16,
    pub strategy_index: u8,
    pub route_type: u8,
    /// The amount, as little-endian 32-bit digits.
    pub amount: Vec<u32>,
}

impl Default for InternalTransferTx {
    fn default() -> (r: Self)
        ensures
            r.from_account_index == 0 && r.to_account_index == 0 && r.asset_index == 0
                && r.strategy_index == 0 && r.route_type == 0 && r.amount@ == Seq::<u32>::empty(),
    {
        InternalTransferTx {
            from_account_index: 0,
            to_account_index: 0,
            asset_index: 0,
            strategy_index: 0,
            route_type: 0,
            amount: Vec::new(),
        }
    }
}

/// The input wires of an [`InternalTransferTx`].
#[derive(Debug)]
pub struct InternalTransferTxTarget {
    pub from_account_index: Target,
    pub to_account_index: Target,
    pub asset_index: Target,
    pub route_type: Target,
    pub strategy_index: Target,
    pub amount: BigUintTarget,
}

/// The single-wire inputs of an [`InternalTransferTxTarget`], in field order.
pub open spec fn internal_transfer_tx_targets(t: InternalTransferTxTarget) -> Seq<Target> {
    seq![t.from_account_index, t.to_account_index, t.asset_index, t.route_type, t.strategy_index]
}

/// The field values of an [`InternalTransferTx`] on the wires of [`internal_transfer_tx_targets`];
/// the asset index is read as a `u16`.
pub open spec fn internal_transfer_tx_values(tx: InternalTransferTx) -> Seq<nat> {
    seq![
        i64_field(tx.from_account_index),
        i64_field(tx.to_account_index),
        (tx.asset_index as u16) as nat,
        tx.route_type as nat,
        tx.strategy_index as nat,
    ]
}

/// Every wire of an [`InternalTransferTxTarget`]: the single-wire inputs, then the amount limbs.
pub open spec fn internal_transfer_tx_wires(t: InternalTransferTxTarget) -> Seq<Target> {
    internal_transfer_tx_targets(t) + limb_targets(t.amount@)
}

impl InternalTransferTxTarget {
    /// Fresh wires for every input, numbered in field order; the amount takes two range-checked
    /// limbs.
    pub fn new(builder: &mut Builder) -> (r: Self)
        requires
            old(builder).num_targets + 7 <= usize::MAX,
        ensures
            r.from_account_index.index == old(builder).num_targets + 0,
            r.to_account_index.index == old(builder).num_targets + 1,
            r.asset_index.index == old(builder).num_targets + 2,
            r.route_type.index == old(builder).num_targets + 3,
            r.strategy_index.index == old(builder).num_targets + 4,
            r.amount@ == fresh_limbs(old(builder)@.num_targets + 5, 2),
            final(builder)@ =~= (BuilderView { num_targets: old(builder)@.num_targets + 7, ..old(builder)@ }),
    {
        let from_account_index = builder.add_virtual_target();
        let to_account_index = builder.add_virtual_target();
        let asset_index = builder.add_virtual_target();
        let route_type = builder.add_virtual_target();
        let strategy_index = builder.add_virtual_target();
        let amount = builder.add_virtual_biguint_target_safe(BIG_U64_LIMBS);
        InternalTransferTxTarget {
            from_account_index,
            to_account_index,
            asset_index,
            route_type,
            strategy_index,
            amount,
        }
    }
}

/// Assigning an [`InternalTransferTx`] to its wires.
pub trait InternalTransferTxTargetWitness {
    fn set_internal_transfer_tx_target(&mut self, a: &InternalTransferTxTarget, b: &InternalTransferTx) -> Result<(), WitnessError>;
}

impl InternalTransferTxTargetWitness for PartialWitness {
    /// Writes the field value of every input of `b` into its wire in `a`, and the amount into
    /// the amount limbs.
    fn set_internal_transfer_tx_target(&mut self, a: &InternalTransferTxTarget, b: &InternalTransferTx) -> (r: Result<(), WitnessError>)
        ensures
            extends(old(self)@, final(self)@),
            r is Ok ==> targets_hold(final(self)@, internal_transfer_tx_targets(*a), internal_transfer_tx_values(*b)),
            r is Ok ==> limbs_set(final(self)@, a.amount@) && limbs_val(final(self)@, a.amount@) == limbs_value(b.amount@),
            limbs_value(b.amount@) < limb_capacity(a.amount@.len())
                && targets_unset(old(self)@, internal_transfer_tx_wires(*a))
                && distinct_targets(internal_transfer_tx_wires(*a)) ==> r is Ok,
    {
        let ghost ready = limbs_value(b.amount@) < limb_capacity(a.amount@.len())
            && targets_unset(old(self)@, internal_transfer_tx_wires(*a))
            && distinct_targets(internal_transfer_tx_wires(*a));
        let ghost singles = internal_transfer_tx_targets(*a);
        let ghost am = limb_targets(a.amount@);
        proof {
            if ready {
                lemma_rest_unset(old(self)@, old(self)@, singles, am);
            }
        }
        let targets = vec![a.from_account_index, a.to_account_index, a.asset_index, a.route_type, a.strategy_index];
        let values = vec![
            GoldilocksField::from_canonical_i64(b.from_account_index),
            GoldilocksField::from_canonical_i64(b.to_account_index),
            GoldilocksField::from_canonical_u16(b.asset_index as u16),
            GoldilocksField::from_canonical_u8(b.route_type),
            GoldilocksField::from_canonical_u8(b.strategy_index),
        ];
        assert(targets@ =~= internal_transfer_tx_targets(*a));
        assert(values@.map_values(|v: GoldilocksField| v@) =~= internal_transfer_tx_values(*b));
        match self.set_targets(&targets, &values) {
            Ok(()) => {},
            Err(e) => {
                return Err(e);
            },
        }
        let ghost w0 = self@;
        let digits = shortest_digits(&b.amount);
        proof {
            if ready {
                lemma_rest_unset(old(self)@, w0, singles, am);
                assert(am + Seq::<Target>::empty() =~= am);
                lemma_rest_unset(w0, w0, am, Seq::<Target>::empty());
                lemma_limbs_unset(w0, a.amount@);
                lemma_minimal_len(digits@, a.amount@.len());
            }
        }
        match set_biguint_target(self, &a.amount, &digits) {
            Ok(()) => {},
            Err(e) => {
                return Err(e);
            },
        }
        proof {
            lemma_targets_hold_extend(w0, self@, internal_transfer_tx_targets(*a), internal_transfer_tx_values(*b));
        }
        Ok(())
    }
}

/// A layer-1 deposit of an asset into an account.
#[derive(Clone, Debug)]
pub struct L1DepositTx {
    pub account_index: i64,
    /// The depositor's layer-1 address, as little-endian 32-bit digits.
    pub l1_address: Vec<u32>,
    pub asset_index: i16,
    pub route_type: u8,
    pub amount: u64,
    pub accepted_amount: u64,
}

impl Default for L1DepositTx {
    fn default() -> (r: Self)
        ensures
            r.account_index == 0 && r.l1_address@ == Seq::<u32>::empty() && r.asset_index == 0
                && r.route_type == 0 && r.amount == 0 && r.accepted_amount == 0,
    {
        L1DepositTx {
            account_index: 0,
            l1_address: Vec::new(),
            asset_index: 0,
            route_type: 0,
            amount: 0,
            accepted_amount: 0,
        }
    }
}

/// The input wires of an [`L1DepositTx`].
#[derive(Debug)]
pub struct L1DepositTxTarget {
    pub account_index: Target,
    pub l1_address: BigUintTarget,
    pub asset_index: Target,
    pub route_type: Target,
    pub amount: BigUintTarget,
    pub accepted_amount: BigUintTarget,
}

/// The single-wire inputs of an [`L1DepositTxTarget`], in field order.
pub open spec fn l1_deposit_tx_targets(t: L1DepositTxTarget) -> Seq<Target> {
    seq![t.account_index, t.asset_index, t.route_type]
}

/// The field values of an [`L1DepositTx`] on the wires of [`l1_deposit_tx_targets`]; the asset
/// index is read as a `u16`.
pub open spec fn l1_deposit_tx_values(tx: L1DepositTx) -> Seq<nat> {
    seq![i64_field(tx.account_index), (tx.asset_index as u16) as nat, tx.route_type as nat]
}

/// Every wire of an [`L1DepositTxTarget`]: the single-wire inputs, then the limbs of the address,
/// the amount and the accepted amount.
pub open spec fn l1_deposit_tx_wires(t: L1DepositTxTarget) -> Seq<Target> {
    l1_deposit_tx_targets(t) + (limb_targets(t.l1_address@) + (limb_targets(t.amount@) + limb_targets(
        t.accepted_amount@,
    )))
}

impl L1DepositTxTarget {
    /// Fresh wires for every input: the account, five address limbs, two limbs for each amount,
    /// then the asset and the route.
    pub fn new(builder: &mut Builder) -> (r: Self)
        requires
            old(builder).num_targets + 12 <= usize::MAX,
        ensures
            r.account_index.index == old(builder).num_targets + 0,
            r.l1_address@ == fresh_limbs(old(builder)@.num_targets + 1, 5),
            r.amount@ == fresh_limbs(old(builder)@.num_targets + 6, 2),
            r.accepted_amount@ == fresh_limbs(old(builder)@.num_targets + 8, 2),
            r.asset_index.index == old(builder).num_targets + 10,
            r.route_type.index == old(builder).num_targets + 11,
            final(builder)@ =~= (BuilderView { num_targets: old(builder)@.num_targets + 12, ..old(builder)@ }),
    {
        let account_index = builder.add_virtual_target();
        let l1_address = builder.add_virtual_biguint_target_safe(BIG_U160_LIMBS);
        let amount = builder.add_virtual_biguint_target_safe(BIG_U64_LIMBS);
        let accepted_amount = builder.add_virtual_biguint_target_safe(BIG_U64_LIMBS);
        let asset_index = builder.add_virtual_target();
        let route_type = builder.add_virtual_target();
        L1DepositTxTarget { account_index, l1_address, asset_index, route_type, amount, accepted_amount }
    }
}

/// Assigning an [`L1DepositTx`] to its wires.
pub trait L1DepositTxTargetWitness {
    fn set_l1_deposit_tx_target(&mut self, a: &L1DepositTxTarget, b: &L1DepositTx) -> Result<(), WitnessError>;
}

impl L1DepositTxTargetWitness for PartialWitness {
    /// Writes the account, the address and both amounts into their limbs, then the asset and
    /// the route.
    fn set_l1_deposit_tx_target(&mut self, a: &L1DepositTxTarget, b: &L1DepositTx) -> (r: Result<(), WitnessError>)
        ensures
            extends(old(self)@, final(self)@),
            r is Ok ==> targets_hold(final(self)@, l1_deposit_tx_targets(*a), l1_deposit_tx_values(*b)),
            r is Ok ==> limbs_set(final(self)@, a.l1_address@) && limbs_val(final(self)@, a.l1_address@) == limbs_value(b.l1_address@),
            r is Ok ==> limbs_set(final(self)@, a.amount@) && limbs_val(final(self)@, a.amount@) == b.amount as nat,
            r is Ok ==> limbs_set(final(self)@, a.accepted_amount@) && limbs_val(final(self)@, a.accepted_amount@) == b.accepted_amount as nat,
            limbs_value(b.l1_address@) < limb_capacity(a.l1_address@.len())
                && a.amount@.len() >= BIG_U64_LIMBS && a.accepted_amount@.len() >= BIG_U64_LIMBS
                && targets_unset(old(self)@, l1_deposit_tx_wires(*a))
                && distinct_targets(l1_deposit_tx_wires(*a)) ==> r is Ok,
    {
        let ghost ready = limbs_value(b.l1_address@) < limb_capacity(a.l1_address@.len())
            && a.amount@.len() >= BIG_U64_LIMBS && a.accepted_amount@.len() >= BIG_U64_LIMBS
            && targets_unset(old(self)@, l1_deposit_tx_wires(*a))
            && distinct_targets(l1_deposit_tx_wires(*a));
        let ghost singles = l1_deposit_tx_targets(*a);
        let ghost ad = limb_targets(a.l1_address@);
        let ghost am = limb_targets(a.amount@);
        let ghost ac = limb_targets(a.accepted_amount@);
        proof {
            if ready {
                lemma_rest_unset(old(self)@, old(self)@, singles, ad + (am + ac));
            }
        }
        let targets = vec![a.account_index, a.asset_index, a.route_type];
        let values = vec![
            GoldilocksField::from_canonical_i64(b.account_index),
            GoldilocksField::from_canonical_u16(b.asset_index as u16),
            GoldilocksField::from_canonical_u8(b.route_type),
        ];
        assert(targets@ =~= l1_deposit_tx_targets(*a));
        assert(values@.map_values(|v: GoldilocksField| v@) =~= l1_deposit_tx_values(*b));
        match self.set_targets(&targets, &values) {
            Ok(()) => {},
            Err(e) => {
                return Err(e);
            },
        }
        let ghost w0 = self@;
        let address = shortest_digits(&b.l1_address);
        proof {
            if ready {
                lemma_rest_unset(old(self)@, w0, singles, ad + (am + ac));
                lemma_rest_unset(w0, w0, ad, am + ac);
                lemma_limbs_unset(w0, a.l1_address@);
                lemma_minimal_len(address@, a.l1_address@.len());
            }
        }
        match set_biguint_target(self, &a.l1_address, &address) {
            Ok(()) => {},
            Err(e) => {
                return Err(e);
            },
        }
        let ghost w1 = self@;
        proof {
            if ready {
                lemma_limb_frame(w0, w1, a.l1_address@);
                lemma_rest_unset(w0, w1, ad, am + ac);
                lemma_rest_unset(w1, w1, am, ac);
                lemma_limbs_unset(w1, a.amount@);
            }
        }
        match set_biguint_target(self, &a.amount, &u64_digits(b.amount)) {
            Ok(()) => {},
            Err(e) => {
                return Err(e);
            },
        }
        let ghost w2 = self@;
        proof {
            if ready {
                lemma_limb_frame(w1, w2, a.amount@);
                lemma_rest_unset(w1, w2, am, ac);
                lemma_limbs_unset(w2, a.accepted_amount@);
            }
        }
        match set_biguint_target(self, &a.accepted_amount, &u64_digits(b.accepted_amount)) {
            Ok(()) => {},
            Err(e) => {
                return Err(e);
            },
        }
        let ghost w3 = self@;
        proof {
            lemma_targets_hold_extend(w0, w3, l1_deposit_tx_targets(*a), l1_deposit_tx_values(*b));
            lemma_limbs_extend(w1, w3, a.l1_address@);
            lemma_limbs_extend(w2, w3, a.amount@);
        }
        Ok(())
    }
}

} // verus!
