use vstd::prelude::*;
use crate::field::{
    GoldilocksField, p, to_field, lemma_field_bound, lemma_add_sub_cancel, lemma_to_field_small,
    lemma_to_field_add, lemma_to_field_sub,
};

verus! {

/// The order counters that placing or removing an order touches: the market's, the account's
/// and the account's position's in that market (with the market type and the position's
/// margin mode, which decide which counters move).
#[derive(Clone, Copy, Debug)]
pub struct OrderCounts {
    pub market_total_order_count: GoldilocksField,
    pub market_type: GoldilocksField,
    pub account_total_order_count: GoldilocksField,
    pub account_total_non_cross_order_count: GoldilocksField,
    pub position_total_position_tied_order_count: GoldilocksField,
    pub position_total_order_count: GoldilocksField,
    pub position_margin_mode: GoldilocksField,
}

/// The counters as field values.
pub struct OrderCountsView {
    pub market_total_order_count: nat,
    pub market_type: nat,
    pub account_total_order_count: nat,
    pub account_total_non_cross_order_count: nat,
    pub position_total_position_tied_order_count: nat,
    pub position_total_order_count: nat,
    pub position_margin_mode: nat,
}

impl View for OrderCounts {
    type V = OrderCountsView;

    open spec fn view(&self) -> OrderCountsView {
        OrderCountsView {
            market_total_order_count: self.market_total_order_count@,
            market_type: self.market_type@,
            account_total_order_count: self.account_total_order_count@,
            account_total_non_cross_order_count: self.account_total_non_cross_order_count@,
            position_total_position_tied_order_count: self.position_total_position_tied_order_count@,
            position_total_order_count: self.position_total_order_count@,
            position_margin_mode: self.position_margin_mode@,
        }
    }
}

/// Every counter is a field element.
pub open spec fn counts_well_formed(c: OrderCountsView) -> bool {
    &&& c.market_total_order_count < p()
    &&& c.market_type < p()
    &&& c.account_total_order_count < p()
    &&& c.account_total_non_cross_order_count < p()
    &&& c.position_total_position_tied_order_count < p()
    &&& c.position_total_order_count < p()
    &&& c.position_margin_mode < p()
}

pub proof fn lemma_counts_well_formed(c: OrderCounts)
    ensures
        counts_well_formed(c@),
{
    lemma_field_bound(c.market_total_order_count);
    lemma_field_bound(c.market_type);
    lemma_field_bound(c.account_total_order_count);
    lemma_field_bound(c.account_total_non_cross_order_count);
    lemma_field_bound(c.position_total_position_tied_order_count);
    lemma_field_bound(c.position_total_order_count);
    lemma_field_bound(c.position_margin_mode);
}

pub open spec fn bit(b: bool) -> int {
    if b {
        1
    } else {
        0
    }
}

/// A counter moved up or down by one when `b` holds.
pub open spec fn bump(x: nat, up: bool, b: bool) -> nat {
    if up {
        to_field(x + bit(b))
    } else {
        to_field(x - bit(b))
    }
}

/// The counters after placing (`up`) or removing an order that `flag` enables:
/// the market and account totals move; in a spot market the account's non-cross count moves
/// too and nothing else; otherwise the position's total moves, its position-tied count when
/// the order is reduce-only and not a parent of triggered orders, and the account's non-cross
/// count when the position is isolated.
pub open spec fn moved_counts(
    c: OrderCountsView,
    up: bool,
    flag: bool,
    trigger_status: nat,
    reduce_only: nat,
    market_type_spot: nat,
    trigger_status_parent_order: nat,
    isolated_margin: nat,
) -> OrderCountsView {
    let is_spot = c.market_type == market_type_spot;
    let perps_flag = flag && !is_spot;
    let tied = perps_flag && trigger_status != trigger_status_parent_order && reduce_only != 0;
    let isolated = c.position_margin_mode == isolated_margin && perps_flag;
    OrderCountsView {
        market_total_order_count: bump(c.market_total_order_count, up, flag),
        account_total_order_count: bump(c.account_total_order_count, up, flag),
        account_total_non_cross_order_count: bump(
            bump(c.account_total_non_cross_order_count, up, is_spot && flag),
            up,
            isolated,
        ),
        position_total_position_tied_order_count: bump(
            c.position_total_position_tied_order_count,
            up,
            tied,
        ),
        position_total_order_count: bump(c.position_total_order_count, up, perps_flag),
        ..c
    }
}

fn field_of_bool(b: bool) -> (r: GoldilocksField)
    ensures
        r@ == bit(b),
{
    GoldilocksField::from_bool(b)
}

/// Counts an order that `flag` enables into the market, the taker account and its position
/// (see [`moved_counts`], moving up); `market_type_spot`, `trigger_status_parent_order` and
/// `isolated_margin` are the exchange's codes for a spot market, a parent order's trigger
/// status and isolated margin.
pub fn increment_order_count_in_place(
    counts: &mut OrderCounts,
    flag: bool,
    trigger_status: GoldilocksField,
    reduce_only: GoldilocksField,
    market_type_spot: GoldilocksField,
    trigger_status_parent_order: GoldilocksField,
    isolated_margin: GoldilocksField,
)
    ensures
        final(counts)@ == moved_counts(
            old(counts)@,
            true,
            flag,
            trigger_status@,
            reduce_only@,
            market_type_spot@,
            trigger_status_parent_order@,
            isolated_margin@,
        ),
{
    move_counts(counts, true, flag, trigger_status, reduce_only, market_type_spot, trigger_status_parent_order, isolated_margin)
}

/// Removes an order that `flag` enables from the market, the account and its position (see
/// [`moved_counts`], moving down).
pub fn decrement_order_count_in_place(
    counts: &mut OrderCounts,
    flag: bool,
    trigger_status: GoldilocksField,
    reduce_only: GoldilocksField,
    market_type_spot: GoldilocksField,
    trigger_status_parent_order: GoldilocksField,
    isolated_margin: GoldilocksField,
)
    ensures
        final(counts)@ == moved_counts(
            old(counts)@,
            false,
            flag,
            trigger_status@,
            reduce_only@,
            market_type_spot@,
            trigger_status_parent_order@,
            isolated_margin@,
        ),
{
    move_counts(counts, false, flag, trigger_status, reduce_only, market_type_spot, trigger_status_parent_order, isolated_margin)
}

fn step(x: &GoldilocksField, up: bool, b: bool) -> (r: GoldilocksField)
    ensures
        r@ == bump(x@, up, b),
{
    let d = field_of_bool(b);
    if up {
        x.add(&d)
    } else {
        x.sub(&d)
    }
}

fn move_counts(
    counts: &mut OrderCounts,
    up: bool,
    flag: bool,
    trigger_status: GoldilocksField,
    reduce_only: GoldilocksField,
    market_type_spot: GoldilocksField,
    trigger_status_parent_order: GoldilocksField,
    isolated_margin: GoldilocksField,
)
    ensures
        final(counts)@ == moved_counts(
            old(counts)@,
            up,
            flag,
            trigger_status@,
            reduce_only@,
            market_type_spot@,
            trigger_status_parent_order@,
            isolated_margin@,
        ),
{
    counts.market_total_order_count = step(&counts.market_total_order_count, up, flag);
    counts.account_total_order_count = step(&counts.account_total_order_count, up, flag);
    let is_spot = counts.market_type.equals(&market_type_spot);
    counts.account_total_non_cross_order_count = step(
        &counts.account_total_non_cross_order_count,
        up,
        is_spot && flag,
    );
    let perps_flag = flag && !is_spot;
    let tied = perps_flag && !trigger_status.equals(&trigger_status_parent_order) && !reduce_only.is_zero();
    counts.position_total_position_tied_order_count = step(
        &counts.position_total_position_tied_order_count,
        up,
        tied,
    );
    counts.position_total_order_count = step(&counts.position_total_order_count, up, perps_flag);
    let isolated = counts.position_margin_mode.equals(&isolated_margin) && perps_flag;
    counts.account_total_non_cross_order_count = step(
        &counts.account_total_non_cross_order_count,
        up,
        isolated,
    );
}

/// Moving a field element up and back down.
proof fn lemma_bump_cancel(x: nat, b: bool)
    requires
        x < p(),
    ensures
        bump(bump(x, true, b), false, b) == x,
{
    lemma_add_sub_cancel(x as int, bit(b));
}

/// Moving a field element up by `s` then `i` and down by `s` then `i`.
proof fn lemma_bump_twice_cancel(a: nat, s: bool, i: bool)
    requires
        a < p(),
    ensures
        bump(bump(bump(bump(a, true, s), true, i), false, s), false, i) == a,
{
    lemma_to_field_small(bit(s));
    lemma_to_field_small(bit(i));
    lemma_to_field_add(a + bit(s), bit(i));
    lemma_to_field_sub(a + bit(s) + bit(i), bit(s));
    lemma_to_field_sub(a + bit(i), bit(i));
    lemma_to_field_small(a as int);
}

/// Removing an order undoes counting it in: with the same flag, trigger status and
/// reduce-only value, decrementing after incrementing gives back every counter.
pub proof fn lemma_increment_then_decrement(
    c: OrderCountsView,
    flag: bool,
    trigger_status: nat,
    reduce_only: nat,
    market_type_spot: nat,
    trigger_status_parent_order: nat,
    isolated_margin: nat,
)
    requires
        counts_well_formed(c),
    ensures
        moved_counts(
            moved_counts(
                c,
                true,
                flag,
                trigger_status,
                reduce_only,
                market_type_spot,
                trigger_status_parent_order,
                isolated_margin,
            ),
            false,
            flag,
            trigger_status,
            reduce_only,
            market_type_spot,
            trigger_status_parent_order,
            isolated_margin,
        ) == c,
{
    let is_spot = c.market_type == market_type_spot;
    let perps_flag = flag && !is_spot;
    let tied = perps_flag && trigger_status != trigger_status_parent_order && reduce_only != 0;
    let isolated = c.position_margin_mode == isolated_margin && perps_flag;
    lemma_bump_cancel(c.market_total_order_count, flag);
    lemma_bump_cancel(c.account_total_order_count, flag);
    lemma_bump_cancel(c.position_total_position_tied_order_count, tied);
    lemma_bump_cancel(c.position_total_order_count, perps_flag);
    lemma_bump_twice_cancel(c.account_total_non_cross_order_count, is_spot && flag, isolated);
}

} // verus!
