use vstd::prelude::*;
use vstd::arithmetic::power2::pow2;
use vstd::arithmetic::div_mod::lemma_basic_div;
use vstd::bits::{lemma_u64_shr_is_div, lemma_u64_pow2_no_overflow};
use crate::field::{GoldilocksField, to_field, lemma_to_field_add, lemma_to_field_small};

verus! {

/// Whether `x < 2^bits`: the range check on a wire.
pub fn fits_bits(x: u64, bits: u32) -> (r: bool)
    requires
        bits < 64,
    ensures
        r == (x < pow2(bits as nat)),
{
    proof {
        lemma_u64_shr_is_div(x, bits as u64);
        lemma_u64_pow2_no_overflow(bits as nat);
        if x < pow2(bits as nat) {
            lemma_basic_div(x as int, pow2(bits as nat) as int);
        } else {
            vstd::arithmetic::div_mod::lemma_div_non_zero(x as int, pow2(bits as nat) as int);
        }
    }
    (x >> (bits as u64)) == 0
}

/// A node on an order-book Merkle path: the hash of the sibling subtree and the total
/// base and quote amounts of the asks and bids below the node.
#[derive(Clone, Copy, Debug)]
pub struct OrderBookNode {
    pub sibling_child_hash: [GoldilocksField; 4],
    pub ask_base_sum: GoldilocksField,
    pub ask_quote_sum: GoldilocksField,
    pub bid_base_sum: GoldilocksField,
    pub bid_quote_sum: GoldilocksField,
}

/// An order-book leaf: the price and nonce that place it, and the amounts it holds on each side.
#[derive(Clone, Copy, Debug)]
pub struct Order {
    pub price_index: GoldilocksField,
    pub nonce_index: GoldilocksField,
    pub ask_base_sum: GoldilocksField,
    pub ask_quote_sum: GoldilocksField,
    pub bid_base_sum: GoldilocksField,
    pub bid_quote_sum: GoldilocksField,
}

/// The pending order held in an account's register.
#[derive(Clone, Copy, Debug)]
pub struct BaseRegisterInfo {
    pub pending_size: GoldilocksField,
    pub pending_price: GoldilocksField,
    pub pending_nonce: GoldilocksField,
    pub pending_is_ask: bool,
}

/// The four amounts of a node: ask base, ask quote, bid base, bid quote.
pub open spec fn node_sums(n: OrderBookNode) -> Seq<nat> {
    seq![n.ask_base_sum@, n.ask_quote_sum@, n.bid_base_sum@, n.bid_quote_sum@]
}

/// The four amounts of an order, in the same order as [`node_sums`].
pub open spec fn order_sums(o: Order) -> Seq<nat> {
    seq![o.ask_base_sum@, o.ask_quote_sum@, o.bid_base_sum@, o.bid_quote_sum@]
}

/// The amount moved up by one level: `prev + (upper - lower)`.
proof fn lemma_shift(prev: nat, upper: nat, lower: nat, d: int)
    requires
        prev == to_field(lower + d),
    ensures
        to_field(prev + to_field(upper - lower) as int) == to_field(upper + d),
{
    lemma_to_field_add(lower + d, upper - lower);
    crate::field::lemma_to_field_bound(lower + d);
    lemma_to_field_small(prev as int);
    crate::field::lemma_to_field_bound(upper - lower);
    lemma_to_field_small(to_field(upper - lower) as int);
}

/// `prev + (upper - lower)` in the field.
fn shift_amount(prev: &GoldilocksField, upper: &GoldilocksField, lower: &GoldilocksField) -> (r:
    GoldilocksField)
    ensures
        r@ == to_field(prev@ + to_field(upper@ - lower@) as int),
{
    let diff = upper.sub(lower);
    prev.add(&diff)
}

/// `after` is `path` with every node's four amounts moved by what the leaf gained going from
/// `order_before` to `order_after`, and every sibling hash kept.
pub open spec fn path_shifted(
    path: Seq<OrderBookNode>,
    order_before: Order,
    order_after: Order,
    after: Seq<OrderBookNode>,
) -> bool {
    &&& after.len() == path.len()
    &&& forall|i: int|
        0 <= i < after.len() ==> (#[trigger] after[i]).sibling_child_hash == path[i].sibling_child_hash
    &&& forall|i: int, k: int|
        0 <= i < after.len() && 0 <= k < 4 ==> #[trigger] node_sums(after[i])[k] == to_field(
            node_sums(path[i])[k] + order_sums(order_after)[k] - order_sums(order_before)[k],
        )
}

/// Changing the leaf back undoes a path update: shifting a path from `order_before` to
/// `order_after` and then from `order_after` back to `order_before` gives back every node's
/// hash and amounts.
pub proof fn lemma_path_shift_round_trip(
    path: Seq<OrderBookNode>,
    order_before: Order,
    order_after: Order,
    moved: Seq<OrderBookNode>,
    back: Seq<OrderBookNode>,
)
    requires
        path_shifted(path, order_before, order_after, moved),
        path_shifted(moved, order_after, order_before, back),
    ensures
        back.len() == path.len(),
        forall|i: int|
            0 <= i < path.len() ==> (#[trigger] back[i]).sibling_child_hash
                == path[i].sibling_child_hash && node_sums(back[i]) == node_sums(path[i]),
{
    assert forall|i: int| 0 <= i < path.len() implies (#[trigger] back[i]).sibling_child_hash
        == path[i].sibling_child_hash && node_sums(back[i]) == node_sums(path[i]) by {
        assert forall|k: int| 0 <= k < 4 implies node_sums(back[i])[k] == node_sums(path[i])[k] by {
            let x = node_sums(path[i])[k] as int;
            let d = order_sums(order_after)[k] - order_sums(order_before)[k];
            lemma_sums_reduced(path[i]);
            assert(node_sums(moved[i])[k] == to_field(x + d));
            assert(node_sums(back[i])[k] == to_field(node_sums(moved[i])[k] - d));
            lemma_field_shift_back(x, d);
        }
        assert(node_sums(back[i]) =~= node_sums(path[i]));
    }
}

/// The amounts of a node are reduced field elements.
proof fn lemma_sums_reduced(n: OrderBookNode)
    ensures
        forall|k: int| 0 <= k < 4 ==> node_sums(n)[k] < crate::field::p(),
{
    crate::field::lemma_field_bound(n.ask_base_sum);
    crate::field::lemma_field_bound(n.ask_quote_sum);
    crate::field::lemma_field_bound(n.bid_base_sum);
    crate::field::lemma_field_bound(n.bid_quote_sum);
}

/// Moving a reduced element by `d` and back.
proof fn lemma_field_shift_back(x: int, d: int)
    requires
        0 <= x < crate::field::p(),
    ensures
        to_field(to_field(x + d) - d) == x,
{
    crate::field::lemma_to_field_bound(x + d);
    lemma_to_field_small(d % (crate::field::p() as int));
    crate::field::lemma_to_field_sub(x + d, d);
    lemma_to_field_small(x);
}

/// The path from a leaf to the root after the leaf changes from `order_before` to
/// `order_after`; `None` when a root amount fails its range check (`base_sum_bits` bits for
/// base amounts, `quote_sum_bits` bits for quote amounts).
pub fn get_order_book_path_delta(
    order_before: &Order,
    order_book_path_before: &Vec<OrderBookNode>,
    order_after: &Order,
    base_sum_bits: u32,
    quote_sum_bits: u32,
) -> (r: Option<Vec<OrderBookNode>>)
    requires
        order_book_path_before@.len() >= 1,
        base_sum_bits < 64,
        quote_sum_bits < 64,
    ensures
        ({
            let path = order_book_path_before@;
            let top = path.len() - 1;
            let shifted = |k: int|
                to_field(node_sums(path[top])[k] + order_sums(*order_after)[k] - order_sums(
                    *order_before,
                )[k]);
            (r is Some) == (shifted(0) < pow2(base_sum_bits as nat) && shifted(1) < pow2(
                quote_sum_bits as nat,
            ) && shifted(2) < pow2(base_sum_bits as nat) && shifted(3) < pow2(
                quote_sum_bits as nat,
            ))
        }),
        r matches Some(after) ==> path_shifted(
            order_book_path_before@,
            *order_before,
            *order_after,
            after@,
        ),
{
    let path = order_book_path_before;
    let ghost d = Seq::new(
        4,
        |k: int| order_sums(*order_after)[k] - order_sums(*order_before)[k],
    );
    let first = OrderBookNode {
        sibling_child_hash: path[0].sibling_child_hash,
        ask_base_sum: shift_amount(&order_after.ask_base_sum, &path[0].ask_base_sum, &order_before.ask_base_sum),
        ask_quote_sum: shift_amount(&order_after.ask_quote_sum, &path[0].ask_quote_sum, &order_before.ask_quote_sum),
        bid_base_sum: shift_amount(&order_after.bid_base_sum, &path[0].bid_base_sum, &order_before.bid_base_sum),
        bid_quote_sum: shift_amount(&order_after.bid_quote_sum, &path[0].bid_quote_sum, &order_before.bid_quote_sum),
    };
    proof {
        assert forall|k: int| 0 <= k < 4 implies #[trigger] node_sums(first)[k] == to_field(
            node_sums(path@[0])[k] + d[k],
        ) by {
            crate::field::lemma_field_bound(order_after.ask_base_sum);
            crate::field::lemma_field_bound(order_after.ask_quote_sum);
            crate::field::lemma_field_bound(order_after.bid_base_sum);
            crate::field::lemma_field_bound(order_after.bid_quote_sum);
            lemma_to_field_small(order_sums(*order_after)[k] as int);
            lemma_shift(
                order_sums(*order_after)[k],
                node_sums(path@[0])[k],
                order_sums(*order_before)[k],
                d[k],
            );
        }
    }
    let mut after: Vec<OrderBookNode> = Vec::new();
    after.push(first);
    let mut i: usize = 1;
    while i < path.len()
        invariant
            1 <= i <= path@.len(),
            after@.len() == i,
            d.len() == 4,
            forall|k: int| 0 <= k < 4 ==> d[k] == order_sums(*order_after)[k] - order_sums(*order_before)[k],
            forall|j: int|
                0 <= j < i ==> (#[trigger] after@[j]).sibling_child_hash == path@[j].sibling_child_hash,
            forall|j: int, k: int|
                0 <= j < i && 0 <= k < 4 ==> #[trigger] node_sums(after@[j])[k] == to_field(
                    node_sums(path@[j])[k] + d[k],
                ),
        decreases path.len() - i,
    {
        let prev = after[i - 1];
        let node = OrderBookNode {
            sibling_child_hash: path[i].sibling_child_hash,
            ask_base_sum: shift_amount(&prev.ask_base_sum, &path[i].ask_base_sum, &path[i - 1].ask_base_sum),
            ask_quote_sum: shift_amount(&prev.ask_quote_sum, &path[i].ask_quote_sum, &path[i - 1].ask_quote_sum),
            bid_base_sum: shift_amount(&prev.bid_base_sum, &path[i].bid_base_sum, &path[i - 1].bid_base_sum),
            bid_quote_sum: shift_amount(&prev.bid_quote_sum, &path[i].bid_quote_sum, &path[i - 1].bid_quote_sum),
        };
        proof {
            assert forall|k: int| 0 <= k < 4 implies #[trigger] node_sums(node)[k] == to_field(
                node_sums(path@[i as int])[k] + d[k],
            ) by {
                assert(node_sums(after@[i - 1])[k] == to_field(node_sums(path@[i - 1])[k] + d[k]));
                lemma_shift(
                    node_sums(prev)[k],
                    node_sums(path@[i as int])[k],
                    node_sums(path@[i - 1])[k],
                    d[k],
                );
            }
        }
        after.push(node);
        i = i + 1;
    }
    let top = after[after.len() - 1];
    proof {
        assert(node_sums(top)[0] == top.ask_base_sum@);
        assert(node_sums(top)[1] == top.ask_quote_sum@);
        assert(node_sums(top)[2] == top.bid_base_sum@);
        assert(node_sums(top)[3] == top.bid_quote_sum@);
    }
    if fits_bits(top.ask_base_sum.to_canonical_u64(), base_sum_bits)
        && fits_bits(top.ask_quote_sum.to_canonical_u64(), quote_sum_bits)
        && fits_bits(top.bid_base_sum.to_canonical_u64(), base_sum_bits)
        && fits_bits(top.bid_quote_sum.to_canonical_u64(), quote_sum_bits) {
        Some(after)
    } else {
        None
    }
}

/// What one level adds to the amounts ahead of an order: on the ask side the asks in the
/// left subtree (`helper` set) come first, on the bid side the bids in the right subtree.
/// A taker on the ask side (`is_ask`) meets the bids, and the other way round.
pub open spec fn level_term(is_ask: bool, helper: bool, upper: Seq<nat>, lower: Seq<nat>, ask_k: int, bid_k: int) -> int {
    if is_ask {
        if helper { 0 } else { upper[bid_k] - lower[bid_k] }
    } else {
        if helper { upper[ask_k] - lower[ask_k] } else { 0 }
    }
}

/// The sum of [`level_term`] over levels `1..k` of the path.
pub open spec fn levels_sum(
    is_ask: bool,
    path: Seq<OrderBookNode>,
    helper: Seq<bool>,
    k: int,
    ask_k: int,
    bid_k: int,
) -> int
    decreases k,
{
    if k <= 1 {
        0
    } else {
        levels_sum(is_ask, path, helper, k - 1, ask_k, bid_k) + level_term(
            is_ask,
            helper[k - 1],
            node_sums(path[k - 1]),
            node_sums(path[k - 2]),
            ask_k,
            bid_k,
        )
    }
}

/// The amount (coordinate `ask_k` or `bid_k`) ahead of the order along the whole path,
/// the sibling of the leaf included.
pub open spec fn amount_ahead(
    is_ask: bool,
    order_before: Order,
    path: Seq<OrderBookNode>,
    helper: Seq<bool>,
    ask_k: int,
    bid_k: int,
) -> nat {
    to_field(
        levels_sum(is_ask, path, helper, path.len() as int, ask_k, bid_k) + level_term(
            is_ask,
            helper[0],
            node_sums(path[0]),
            order_sums(order_before),
            ask_k,
            bid_k,
        ),
    )
}

/// One level's contribution, as a field element.
fn level_contribution(
    is_ask: bool,
    helper: bool,
    upper_ask: &GoldilocksField,
    lower_ask: &GoldilocksField,
    upper_bid: &GoldilocksField,
    lower_bid: &GoldilocksField,
) -> (r: GoldilocksField)
    ensures
        r@ == to_field(
            if is_ask {
                if helper { 0 } else { upper_bid@ - lower_bid@ }
            } else {
                if helper { upper_ask@ - lower_ask@ } else { 0 }
            },
        ),
{
    let zero = GoldilocksField::zero();
    let ask_diff = upper_ask.sub(lower_ask);
    let bid_diff = upper_bid.sub(lower_bid);
    let ask_size = GoldilocksField::select(helper, &ask_diff, &zero);
    let bid_size = GoldilocksField::select(helper, &zero, &bid_diff);
    proof {
        lemma_to_field_small(0);
    }
    GoldilocksField::select(is_ask, &bid_size, &ask_size)
}

/// The total size and quote of the orders on the opposite side that come strictly before the
/// given order, read off its Merkle path (`order_book_path_helper[i]` tells on which side of
/// level `i` the path runs).
pub fn get_quote(
    is_ask: bool,
    order_before: &Order,
    order_book_path: &Vec<OrderBookNode>,
    order_book_path_helper: &Vec<bool>,
) -> (r: (GoldilocksField, GoldilocksField))
    requires
        order_book_path@.len() >= 1,
        order_book_path_helper@.len() == order_book_path@.len(),
    ensures
        r.0@ == amount_ahead(is_ask, *order_before, order_book_path@, order_book_path_helper@, 0, 2),
        r.1@ == amount_ahead(is_ask, *order_before, order_book_path@, order_book_path_helper@, 1, 3),
{
    let path = order_book_path;
    let helper = order_book_path_helper;
    let mut size_sum = GoldilocksField::zero();
    let mut quote_sum = GoldilocksField::zero();
    let mut i: usize = 1;
    proof {
        lemma_to_field_small(0);
    }
    while i < path.len()
        invariant
            1 <= i <= path@.len(),
            helper@.len() == path@.len(),
            size_sum@ == to_field(levels_sum(is_ask, path@, helper@, i as int, 0, 2)),
            quote_sum@ == to_field(levels_sum(is_ask, path@, helper@, i as int, 1, 3)),
        decreases path.len() - i,
    {
        let size_term = level_contribution(
            is_ask,
            helper[i],
            &path[i].ask_base_sum,
            &path[i - 1].ask_base_sum,
            &path[i].bid_base_sum,
            &path[i - 1].bid_base_sum,
        );
        let quote_term = level_contribution(
            is_ask,
            helper[i],
            &path[i].ask_quote_sum,
            &path[i - 1].ask_quote_sum,
            &path[i].bid_quote_sum,
            &path[i - 1].bid_quote_sum,
        );
        proof {
            lemma_to_field_add(
                levels_sum(is_ask, path@, helper@, i as int, 0, 2),
                level_term(is_ask, helper@[i as int], node_sums(path@[i as int]), node_sums(path@[i - 1]), 0, 2),
            );
            lemma_to_field_add(
                levels_sum(is_ask, path@, helper@, i as int, 1, 3),
                level_term(is_ask, helper@[i as int], node_sums(path@[i as int]), node_sums(path@[i - 1]), 1, 3),
            );
        }
        size_sum = size_sum.add(&size_term);
        quote_sum = quote_sum.add(&quote_term);
        i = i + 1;
    }
    let sibling_size = level_contribution(
        is_ask,
        helper[0],
        &path[0].ask_base_sum,
        &order_before.ask_base_sum,
        &path[0].bid_base_sum,
        &order_before.bid_base_sum,
    );
    let sibling_quote = level_contribution(
        is_ask,
        helper[0],
        &path[0].ask_quote_sum,
        &order_before.ask_quote_sum,
        &path[0].bid_quote_sum,
        &order_before.bid_quote_sum,
    );
    proof {
        lemma_to_field_add(
            levels_sum(is_ask, path@, helper@, path@.len() as int, 0, 2),
            level_term(is_ask, helper@[0], node_sums(path@[0]), order_sums(*order_before), 0, 2),
        );
        lemma_to_field_add(
            levels_sum(is_ask, path@, helper@, path@.len() as int, 1, 3),
            level_term(is_ask, helper@[0], node_sums(path@[0]), order_sums(*order_before), 1, 3),
        );
    }
    (size_sum.add(&sibling_size), quote_sum.add(&sibling_quote))
}

/// The amounts of the node just below level `j` of the path: the order itself below the leaf's
/// sibling level, else the path node one level down.
pub open spec fn node_below(order_before: Order, path: Seq<OrderBookNode>, j: int) -> Seq<nat> {
    if j == 0 {
        order_sums(order_before)
    } else {
        node_sums(path[j - 1])
    }
}

/// The coordinates of a size (ask base, bid base) or of a quote (ask quote, bid quote).
pub open spec fn size_or_quote(ask_k: int, bid_k: int) -> bool {
    (ask_k == 0 && bid_k == 2) || (ask_k == 1 && bid_k == 3)
}

/// Reduction before adding a shift changes nothing.
proof fn lemma_to_field_shift(x: int, d: int)
    ensures
        to_field(to_field(x) + d) == to_field(x + d),
{
    lemma_to_field_add(x, d);
    crate::field::lemma_to_field_bound(x);
    lemma_to_field_small(to_field(x) as int);
    lemma_to_field_add(to_field(x) as int, d);
}

/// Changing the helper bit of level `j` only changes that level's term of the partial sum.
proof fn lemma_levels_sum_update(
    is_ask: bool,
    path: Seq<OrderBookNode>,
    h: Seq<bool>,
    j: int,
    b: bool,
    k: int,
    ask_k: int,
    bid_k: int,
)
    requires
        0 <= j < h.len(),
        h.len() == path.len(),
        k <= path.len(),
    ensures
        levels_sum(is_ask, path, h.update(j, b), k, ask_k, bid_k) == levels_sum(
            is_ask,
            path,
            h,
            k,
            ask_k,
            bid_k,
        ) + (if 1 <= j < k {
            level_term(is_ask, b, node_sums(path[j]), node_sums(path[j - 1]), ask_k, bid_k)
                - level_term(is_ask, h[j], node_sums(path[j]), node_sums(path[j - 1]), ask_k, bid_k)
        } else {
            0
        }),
    decreases k,
{
    if k > 1 {
        lemma_levels_sum_update(is_ask, path, h, j, b, k - 1, ask_k, bid_k);
        assert(h.update(j, b)[k - 1] == (if k - 1 == j { b } else { h[k - 1] }));
    }
}

/// With every helper bit equal to `v`, the partial sum of an ask taker (for `v`) or of a bid
/// taker (for `!v`) telescopes; the other taker meets nothing.
proof fn lemma_levels_sum_uniform(
    is_ask: bool,
    path: Seq<OrderBookNode>,
    h: Seq<bool>,
    v: bool,
    k: int,
    ask_k: int,
    bid_k: int,
)
    requires
        h.len() == path.len(),
        1 <= k <= path.len(),
        forall|i: int| 0 <= i < h.len() ==> h[i] == v,
    ensures
        levels_sum(is_ask, path, h, k, ask_k, bid_k) == (if is_ask && !v {
            node_sums(path[k - 1])[bid_k] - node_sums(path[0])[bid_k]
        } else if !is_ask && v {
            node_sums(path[k - 1])[ask_k] - node_sums(path[0])[ask_k]
        } else {
            0
        }),
    decreases k,
{
    if k > 1 {
        lemma_levels_sum_uniform(is_ask, path, h, v, k - 1, ask_k, bid_k);
        assert(h[k - 1] == v);
    }
}

/// The amount ahead of an order counts each level on its own: setting the helper bit of any
/// level `j` (the leaf's sibling level `0` included) to the side that comes later removes
/// exactly that level's amount, the node at `j` less the node below it (the order itself below
/// level `0`), of the side the taker meets: bids for an ask taker, asks for a bid taker.
pub proof fn lemma_amount_ahead_level(
    is_ask: bool,
    order_before: Order,
    path: Seq<OrderBookNode>,
    h: Seq<bool>,
    j: int,
    ask_k: int,
    bid_k: int,
)
    requires
        path.len() >= 1,
        h.len() == path.len(),
        0 <= j < path.len(),
        size_or_quote(ask_k, bid_k),
    ensures
        is_ask ==> amount_ahead(is_ask, order_before, path, h.update(j, false), ask_k, bid_k)
            == to_field(
            amount_ahead(is_ask, order_before, path, h.update(j, true), ask_k, bid_k)
                + node_sums(path[j])[bid_k] - node_below(order_before, path, j)[bid_k],
        ),
        !is_ask ==> amount_ahead(is_ask, order_before, path, h.update(j, true), ask_k, bid_k)
            == to_field(
            amount_ahead(is_ask, order_before, path, h.update(j, false), ask_k, bid_k)
                + node_sums(path[j])[ask_k] - node_below(order_before, path, j)[ask_k],
        ),
{
    let n = path.len() as int;
    let ht = h.update(j, true);
    let hf = h.update(j, false);
    lemma_levels_sum_update(is_ask, path, h, j, true, n, ask_k, bid_k);
    lemma_levels_sum_update(is_ask, path, h, j, false, n, ask_k, bid_k);
    let st = levels_sum(is_ask, path, ht, n, ask_k, bid_k);
    let sf = levels_sum(is_ask, path, hf, n, ask_k, bid_k);
    let lt = level_term(is_ask, ht[0], node_sums(path[0]), order_sums(order_before), ask_k, bid_k);
    let lf = level_term(is_ask, hf[0], node_sums(path[0]), order_sums(order_before), ask_k, bid_k);
    let up = node_sums(path[j]);
    let low = node_below(order_before, path, j);
    if is_ask {
        assert(sf + lf == st + lt + up[bid_k] - low[bid_k]);
        lemma_to_field_shift(st + lt, up[bid_k] - low[bid_k]);
    } else {
        assert(st + lt == sf + lf + up[ask_k] - low[ask_k]);
        lemma_to_field_shift(sf + lf, up[ask_k] - low[ask_k]);
    }
}

/// When every level puts the order ahead of the side the taker meets, nothing is ahead of
/// it; when every level puts it behind, everything on that side of the root, less what the
/// order's own leaf holds, is ahead of it.
pub proof fn lemma_amount_ahead_uniform(
    is_ask: bool,
    order_before: Order,
    path: Seq<OrderBookNode>,
    h: Seq<bool>,
    ask_k: int,
    bid_k: int,
)
    requires
        path.len() >= 1,
        h.len() == path.len(),
        size_or_quote(ask_k, bid_k),
    ensures
        (forall|i: int| 0 <= i < h.len() ==> h[i] == is_ask) ==> amount_ahead(
            is_ask,
            order_before,
            path,
            h,
            ask_k,
            bid_k,
        ) == 0,
        (forall|i: int| 0 <= i < h.len() ==> h[i] != is_ask) ==> amount_ahead(
            is_ask,
            order_before,
            path,
            h,
            ask_k,
            bid_k,
        ) == to_field(
            if is_ask {
                node_sums(path[path.len() - 1])[bid_k] - order_sums(order_before)[bid_k]
            } else {
                node_sums(path[path.len() - 1])[ask_k] - order_sums(order_before)[ask_k]
            },
        ),
{
    let n = path.len() as int;
    if forall|i: int| 0 <= i < h.len() ==> h[i] == is_ask {
        lemma_levels_sum_uniform(is_ask, path, h, is_ask, n, ask_k, bid_k);
        lemma_to_field_small(0);
    }
    if forall|i: int| 0 <= i < h.len() ==> h[i] != is_ask {
        lemma_levels_sum_uniform(is_ask, path, h, !is_ask, n, ask_k, bid_k);
    }
}

/// Differences of congruent amounts are congruent.
proof fn lemma_shifted_difference(u: int, l: int, d: int)
    ensures
        to_field(to_field(u + d) - to_field(l + d)) == to_field(u - l),
{
    crate::field::lemma_to_field_sub(u + d, l + d);
    assert((u + d) - (l + d) == u - l);
}

/// One level's term on a shifted path is congruent to the term on the path.
proof fn lemma_level_term_shift(
    is_ask: bool,
    helper: bool,
    upper: Seq<nat>,
    lower: Seq<nat>,
    upper2: Seq<nat>,
    lower2: Seq<nat>,
    ask_k: int,
    bid_k: int,
    da: int,
    db: int,
)
    requires
        upper2[ask_k] == to_field(upper[ask_k] + da),
        lower2[ask_k] == to_field(lower[ask_k] + da),
        upper2[bid_k] == to_field(upper[bid_k] + db),
        lower2[bid_k] == to_field(lower[bid_k] + db),
    ensures
        to_field(level_term(is_ask, helper, upper2, lower2, ask_k, bid_k)) == to_field(
            level_term(is_ask, helper, upper, lower, ask_k, bid_k),
        ),
{
    lemma_shifted_difference(upper[ask_k] as int, lower[ask_k] as int, da);
    lemma_shifted_difference(upper[bid_k] as int, lower[bid_k] as int, db);
}

/// Sums of congruent terms are congruent.
proof fn lemma_congruent_add(a: int, b: int, a2: int, b2: int)
    requires
        to_field(a) == to_field(a2),
        to_field(b) == to_field(b2),
    ensures
        to_field(a + b) == to_field(a2 + b2),
{
    lemma_to_field_add(a, b);
    lemma_to_field_add(a2, b2);
}

proof fn lemma_levels_sum_shift(
    is_ask: bool,
    path: Seq<OrderBookNode>,
    moved: Seq<OrderBookNode>,
    order_before: Order,
    order_after: Order,
    h: Seq<bool>,
    k: int,
    ask_k: int,
    bid_k: int,
)
    requires
        path_shifted(path, order_before, order_after, moved),
        h.len() == path.len(),
        1 <= k <= path.len(),
        size_or_quote(ask_k, bid_k),
    ensures
        to_field(levels_sum(is_ask, moved, h, k, ask_k, bid_k)) == to_field(
            levels_sum(is_ask, path, h, k, ask_k, bid_k),
        ),
    decreases k,
{
    if k > 1 {
        lemma_levels_sum_shift(is_ask, path, moved, order_before, order_after, h, k - 1, ask_k, bid_k);
        let da = order_sums(order_after)[ask_k] - order_sums(order_before)[ask_k];
        let db = order_sums(order_after)[bid_k] - order_sums(order_before)[bid_k];
        assert(node_sums(moved[k - 1])[ask_k] == to_field(node_sums(path[k - 1])[ask_k] + da));
        assert(node_sums(moved[k - 2])[ask_k] == to_field(node_sums(path[k - 2])[ask_k] + da));
        assert(node_sums(moved[k - 1])[bid_k] == to_field(node_sums(path[k - 1])[bid_k] + db));
        assert(node_sums(moved[k - 2])[bid_k] == to_field(node_sums(path[k - 2])[bid_k] + db));
        lemma_level_term_shift(
            is_ask,
            h[k - 1],
            node_sums(path[k - 1]),
            node_sums(path[k - 2]),
            node_sums(moved[k - 1]),
            node_sums(moved[k - 2]),
            ask_k,
            bid_k,
            da,
            db,
        );
        lemma_congruent_add(
            levels_sum(is_ask, moved, h, k - 1, ask_k, bid_k),
            level_term(is_ask, h[k - 1], node_sums(moved[k - 1]), node_sums(moved[k - 2]), ask_k, bid_k),
            levels_sum(is_ask, path, h, k - 1, ask_k, bid_k),
            level_term(is_ask, h[k - 1], node_sums(path[k - 1]), node_sums(path[k - 2]), ask_k, bid_k),
        );
    }
}

/// Changing an order's own amounts does not change what is ahead of it: after the path is
/// updated for the leaf going from `order_before` to `order_after`, the size and quote ahead of
/// `order_after` on the new path are those ahead of `order_before` on the old one.
pub proof fn lemma_amount_ahead_unchanged_by_own_update(
    is_ask: bool,
    order_before: Order,
    order_after: Order,
    path: Seq<OrderBookNode>,
    moved: Seq<OrderBookNode>,
    h: Seq<bool>,
    ask_k: int,
    bid_k: int,
)
    requires
        path.len() >= 1,
        path_shifted(path, order_before, order_after, moved),
        h.len() == path.len(),
        size_or_quote(ask_k, bid_k),
    ensures
        amount_ahead(is_ask, order_after, moved, h, ask_k, bid_k) == amount_ahead(
            is_ask,
            order_before,
            path,
            h,
            ask_k,
            bid_k,
        ),
{
    let n = path.len() as int;
    lemma_levels_sum_shift(is_ask, path, moved, order_before, order_after, h, n, ask_k, bid_k);
    let da = order_sums(order_after)[ask_k] - order_sums(order_before)[ask_k];
    let db = order_sums(order_after)[bid_k] - order_sums(order_before)[bid_k];
    assert(node_sums(moved[0])[ask_k] == to_field(node_sums(path[0])[ask_k] + da));
    assert(node_sums(moved[0])[bid_k] == to_field(node_sums(path[0])[bid_k] + db));
    let oa = order_sums(order_after);
    let ob = order_sums(order_before);
    crate::field::lemma_field_bound(order_after.ask_base_sum);
    crate::field::lemma_field_bound(order_after.ask_quote_sum);
    crate::field::lemma_field_bound(order_after.bid_base_sum);
    crate::field::lemma_field_bound(order_after.bid_quote_sum);
    crate::field::lemma_field_bound(order_before.ask_base_sum);
    crate::field::lemma_field_bound(order_before.ask_quote_sum);
    crate::field::lemma_field_bound(order_before.bid_base_sum);
    crate::field::lemma_field_bound(order_before.bid_quote_sum);
    lemma_to_field_small(oa[ask_k] as int);
    lemma_to_field_small(oa[bid_k] as int);
    assert(oa[ask_k] == ob[ask_k] + da);
    assert(oa[bid_k] == ob[bid_k] + db);
    lemma_to_field_small(ob[ask_k] as int);
    lemma_to_field_small(ob[bid_k] as int);
    lemma_level_term_shift(
        is_ask,
        h[0],
        node_sums(path[0]),
        ob,
        node_sums(moved[0]),
        oa,
        ask_k,
        bid_k,
        da,
        db,
    );
    lemma_congruent_add(
        levels_sum(is_ask, moved, h, n, ask_k, bid_k),
        level_term(is_ask, h[0], node_sums(moved[0]), oa, ask_k, bid_k),
        levels_sum(is_ask, path, h, n, ask_k, bid_k),
        level_term(is_ask, h[0], node_sums(path[0]), ob, ask_k, bid_k),
    );
}

/// The order-book leaf of a register's pending order: its size and `size * price` land on
/// the side the order is on, zero on the other.
pub fn get_order_from_register(register: &BaseRegisterInfo) -> (r: Order)
    ensures
        r.price_index@ == register.pending_price@,
        r.nonce_index@ == register.pending_nonce@,
        r.ask_base_sum@ == (if register.pending_is_ask { register.pending_size@ } else { 0 }),
        r.bid_base_sum@ == (if register.pending_is_ask { 0 } else { register.pending_size@ }),
        r.ask_quote_sum@ == (if register.pending_is_ask {
            to_field(register.pending_size@ * register.pending_price@ as int)
        } else {
            0
        }),
        r.bid_quote_sum@ == (if register.pending_is_ask {
            0
        } else {
            to_field(register.pending_size@ * register.pending_price@ as int)
        }),
{
    let zero = GoldilocksField::zero();
    let quote = register.pending_size.mul(&register.pending_price);
    Order {
        price_index: register.pending_price,
        nonce_index: register.pending_nonce,
        ask_base_sum: GoldilocksField::select(register.pending_is_ask, &register.pending_size, &zero),
        bid_base_sum: GoldilocksField::select(register.pending_is_ask, &zero, &register.pending_size),
        ask_quote_sum: GoldilocksField::select(register.pending_is_ask, &quote, &zero),
        bid_quote_sum: GoldilocksField::select(register.pending_is_ask, &zero, &quote),
    }
}

/// The nonce the next order on a side takes: the market's ask nonce for an ask, else its bid
/// nonce.
pub fn get_next_order_nonce(ask_nonce: &GoldilocksField, bid_nonce: &GoldilocksField, is_ask: bool) -> (r:
    GoldilocksField)
    ensures
        r@ == (if is_ask { ask_nonce@ } else { bid_nonce@ }),
{
    GoldilocksField::select(is_ask, ask_nonce, bid_nonce)
}

/// Whether a reduce-only order points the wrong way: only an ask against a long position (sign
/// 1) or a bid against a short one (sign `p - 1`, that is -1) reduces it.
pub fn is_not_valid_reduce_only_direction(position_sign: &GoldilocksField, is_ask: bool) -> (r: bool)
    ensures
        r == !((is_ask && position_sign@ == 1) || (!is_ask && position_sign@ == crate::field::p() - 1)),
{
    let positive = position_sign.equals(&GoldilocksField::one());
    let negative = position_sign.equals(&GoldilocksField::neg_one());
    !((is_ask && positive) || (!is_ask && negative))
}

} // verus!
