use vstd::prelude::*;
use crate::field::{GoldilocksField, to_field, lemma_to_field_sub, lemma_to_field_small, lemma_to_field_bound};
use crate::mint_shares::MintSharesOutcome;
use crate::force_burn::ForceBurnOutcome;

verus! {

/// The share book of a public pool that mints and forced burns change: the pool's total
/// shares and its operator's shares, and the depositor's shares, principal and entry time.
#[derive(Clone, Copy, Debug)]
pub struct PoolShareBook {
    pub total_shares: GoldilocksField,
    pub operator_shares: GoldilocksField,
    pub depositor_shares: GoldilocksField,
    pub depositor_principal: GoldilocksField,
    pub entry_timestamp: GoldilocksField,
}

/// The pool's shares held by neither its operator nor the depositor, in the field.
pub open spec fn unheld_shares(b: PoolShareBook) -> nat {
    to_field(b.total_shares@ - b.operator_shares@ - b.depositor_shares@)
}

proof fn lemma_to_field_idem(x: int)
    ensures
        to_field(to_field(x) as int) == to_field(x),
{
    lemma_to_field_bound(x);
    lemma_to_field_small(to_field(x) as int);
}

/// Differences of congruent values are congruent.
proof fn lemma_congruent_sub(a: int, b: int, a2: int, b2: int)
    requires
        to_field(a) == to_field(a2),
        to_field(b) == to_field(b2),
    ensures
        to_field(a - b) == to_field(a2 - b2),
{
    lemma_to_field_sub(a, b);
    lemma_to_field_sub(a2, b2);
}

/// Books a mint: when it succeeded, the pool's total becomes the mint's new total and the
/// shares go to the operator when it minted (its shares grow by `share_amount`), else to the
/// depositor (its shares grow by `share_amount`, its principal becomes the mint's new principal
/// and its entry time the block's); when it failed, nothing changes. A mint whose new total is
/// the old total plus `share_amount` leaves the shares held by neither unchanged.
pub fn apply_mint_shares(
    book: &mut PoolShareBook,
    success: bool,
    share_amount: &GoldilocksField,
    o: &MintSharesOutcome,
    block_timestamp: &GoldilocksField,
)
    ensures
        !success ==> *final(book) == *old(book),
        success ==> final(book).total_shares == o.new_total_shares,
        success && o.is_operator ==> {
            &&& final(book).operator_shares@ == to_field(
                old(book).operator_shares@ + share_amount@ as int,
            )
            &&& final(book).depositor_shares == old(book).depositor_shares
            &&& final(book).depositor_principal == old(book).depositor_principal
            &&& final(book).entry_timestamp == old(book).entry_timestamp
        },
        success && !o.is_operator ==> {
            &&& final(book).operator_shares == old(book).operator_shares
            &&& final(book).depositor_shares@ == to_field(
                old(book).depositor_shares@ + share_amount@ as int,
            )
            &&& final(book).depositor_principal == o.new_principal_amount
            &&& final(book).entry_timestamp == *block_timestamp
        },
        o.new_total_shares@ == to_field(old(book).total_shares@ + share_amount@ as int)
            ==> unheld_shares(*final(book)) == unheld_shares(*old(book)),
{
    let ghost before = *book;
    if success {
        book.total_shares = o.new_total_shares;
        if o.is_operator {
            book.operator_shares = book.operator_shares.add(share_amount);
        } else {
            book.depositor_shares = book.depositor_shares.add(share_amount);
            book.depositor_principal = o.new_principal_amount;
            book.entry_timestamp = *block_timestamp;
        }
    }
    proof {
        let t = before.total_shares@ as int;
        let op = before.operator_shares@ as int;
        let d = before.depositor_shares@ as int;
        let x = share_amount@ as int;
        if success && o.new_total_shares@ == to_field(t + x) {
            lemma_to_field_idem(t + x);
            if o.is_operator {
                lemma_to_field_idem(op + x);
                lemma_congruent_sub(to_field(t + x) as int, to_field(op + x) as int, t + x, op + x);
                lemma_congruent_sub(
                    to_field(t + x) - to_field(op + x),
                    d,
                    (t + x) - (op + x),
                    d,
                );
                assert((t + x) - (op + x) - d == t - op - d);
            } else {
                lemma_to_field_idem(d + x);
                lemma_congruent_sub(to_field(t + x) as int, op, t + x, op);
                lemma_congruent_sub(to_field(t + x) - op, to_field(d + x) as int, t + x - op, d + x);
                assert(t + x - op - (d + x) == t - op - d);
            }
        }
    }
}

/// Books a forced burn: when it succeeded, the pool's total loses the burned shares, the
/// operator gains its fee share, the depositor's principal becomes the burn's new principal and
/// its shares lose both the fee share and the burned shares; when it failed, nothing changes.
/// Either way the shares held by neither the operator nor the depositor are unchanged.
pub fn apply_force_burn(book: &mut PoolShareBook, success: bool, o: &ForceBurnOutcome)
    ensures
        !success ==> *final(book) == *old(book),
        success ==> {
            &&& final(book).total_shares@ == to_field(
                old(book).total_shares@ - o.shares_to_burn@ as int,
            )
            &&& final(book).operator_shares@ == to_field(
                old(book).operator_shares@ + o.operator_fee_share@ as int,
            )
            &&& final(book).depositor_principal == o.new_principal_amount
            &&& final(book).depositor_shares@ == to_field(
                old(book).depositor_shares@ - to_field(
                    o.operator_fee_share@ + o.shares_to_burn@ as int,
                ) as int,
            )
            &&& final(book).entry_timestamp == old(book).entry_timestamp
        },
        unheld_shares(*final(book)) == unheld_shares(*old(book)),
{
    let ghost before = *book;
    if success {
        let burned_total = o.operator_fee_share.add(&o.shares_to_burn);
        book.total_shares = book.total_shares.sub(&o.shares_to_burn);
        book.operator_shares = book.operator_shares.add(&o.operator_fee_share);
        book.depositor_principal = o.new_principal_amount;
        book.depositor_shares = book.depositor_shares.sub(&burned_total);
    }
    proof {
        if success {
            let t = before.total_shares@ as int;
            let op = before.operator_shares@ as int;
            let d = before.depositor_shares@ as int;
            let f = o.operator_fee_share@ as int;
            let b = o.shares_to_burn@ as int;
            lemma_to_field_idem(t - b);
            lemma_to_field_idem(op + f);
            lemma_to_field_idem(f + b);
            lemma_to_field_idem(d - to_field(f + b));
            lemma_congruent_sub(d, to_field(f + b) as int, d, f + b);
            lemma_congruent_sub(to_field(t - b) as int, to_field(op + f) as int, t - b, op + f);
            lemma_congruent_sub(
                to_field(t - b) - to_field(op + f),
                to_field(d - to_field(f + b)) as int,
                (t - b) - (op + f),
                d - (f + b),
            );
            assert((t - b) - (op + f) - (d - (f + b)) == t - op - d);
        }
    }
}

} // verus!
