use vstd::prelude::*;
use vstd::arithmetic::power2::pow2;
use vstd::arithmetic::mul::lemma_mul_upper_bound;
use vstd::bits::lemma_u64_pow2_no_overflow;
use crate::field::{GoldilocksField, p, i64_field, to_field};
use crate::limbs::{limbs_value, limb_capacity, digits_to_u64};
use crate::matching::fits_bits;
use crate::liquidation::{abs_int, abs_i128, pow2_96};
use crate::transactions::{
    L2CreateMarketTx, l2_create_market_tx_values, InternalTransferTx, internal_transfer_tx_values,
};

verus! {

/// The codes and widths the market-creation rules compare against: the nil market index, the
/// binary-options market type, the USDC asset index, the expired market status, the nil and
/// largest public market indices, the fee tick, the USDC-to-collateral multiplier and the bit
/// widths of timestamps, extension multipliers, base amounts, quote sizes, open interest and
/// prices.
#[derive(Clone, Copy, Debug)]
pub struct CreateMarketRules {
    pub nil_market_index: u64,
    pub market_type_binary_options: u64,
    pub usdc_asset_index: u64,
    pub market_status_expired: u64,
    pub nil_public_market_index: u64,
    pub max_public_market_index: u64,
    pub fee_tick: u64,
    pub usdc_to_collateral_multiplier: u64,
    pub timestamp_bits: u32,
    pub asset_extension_multiplier_bits: u32,
    pub order_base_amount_bits: u32,
    pub order_quote_size_bits: u32,
    pub market_open_interest_bits: u32,
    pub order_price_bits: u32,
}

/// The rules' codes are field constants and their widths are below 64 bits.
pub open spec fn create_market_rules_valid(r: CreateMarketRules) -> bool {
    &&& r.nil_market_index < p()
    &&& r.market_type_binary_options < p()
    &&& r.usdc_asset_index < p()
    &&& r.market_status_expired < p()
    &&& r.nil_public_market_index < p()
    &&& r.max_public_market_index + 1 < p()
    &&& 0 < r.fee_tick < p()
    &&& r.timestamp_bits < 64
    &&& r.asset_extension_multiplier_bits < 64
    &&& r.order_base_amount_bits < 64
    &&& r.order_quote_size_bits < 64
    &&& r.market_open_interest_bits < 64
    &&& r.order_price_bits < 64
}

/// What the market-creation check reads of the transaction state: the owner account's index,
/// the API key's index, the slot's binary-options market index and operator account, the
/// asset index in the USDC slot and whether that asset is empty, the slot's market status,
/// order count and open interest, and the next public market index.
#[derive(Clone, Copy, Debug)]
pub struct CreateMarketState {
    pub owner_account_index: GoldilocksField,
    pub api_key_index: GoldilocksField,
    pub binary_options_market_index: GoldilocksField,
    pub market_operator_account_index: GoldilocksField,
    pub usdc_slot_asset_index: GoldilocksField,
    pub is_usdc_asset_empty: bool,
    pub market_status: GoldilocksField,
    pub total_order_count: GoldilocksField,
    pub open_interest: GoldilocksField,
    pub next_public_market_index: GoldilocksField,
}

/// `i64::MAX`, the ceiling of a collateral amount.
pub open spec fn i64_max() -> nat {
    9223372036854775807nat
}

/// The range checks a market-creation record always meets, whether or not it is the
/// transaction being applied: timestamps, extension multipliers, fees, amounts, limits and
/// prices fit their widths.
pub open spec fn create_market_ranges_hold(tx: L2CreateMarketTx, r: CreateMarketRules) -> bool {
    let v = l2_create_market_tx_values(tx);
    &&& v[6] < pow2(r.timestamp_bits as nat)
    &&& v[7] < pow2(r.timestamp_bits as nat)
    &&& v[8] < pow2(r.asset_extension_multiplier_bits as nat)
    &&& v[9] < pow2(r.asset_extension_multiplier_bits as nat)
    &&& v[10] < pow2(24)
    &&& v[11] < pow2(24)
    &&& v[12] < pow2(r.order_base_amount_bits as nat)
    &&& v[13] < pow2(r.order_quote_size_bits as nat)
    &&& v[14] < pow2(r.order_quote_size_bits as nat)
    &&& v[15] < pow2(r.market_open_interest_bits as nat)
    &&& v[16] < pow2(r.order_price_bits as nat)
    &&& v[18] < pow2(r.order_price_bits as nat)
}

/// The rules a market created on a binary-options slot obeys, over the field values of the
/// record: it is signed by the slot's operator with the state's API key, names the slot's
/// market index (not the nil one) as a binary-options market quoted in USDC on both sides with
/// a non-empty USDC asset; the slot's market has expired with no orders and no open interest;
/// the next public market index lies above the nil one and is not exhausted; it starts before
/// it ends; its extension multipliers, settlement cap and minimum amounts are non-zero; the
/// settlement cap times the quote multiplier is the size multiplier; the settlement type and
/// frozen flag are bits; the default price is at most the settlement cap; both fees are at most
/// one fee tick and the quote multiplier is a whole number of fee ticks; the minimum quote is
/// at most the order quote limit, which is at most the open-interest limit; and that limit in
/// collateral units stays within `i64::MAX` times the collateral multiplier. The comparisons
/// are read on the values themselves.
pub open spec fn create_market_rules_hold(
    tx: L2CreateMarketTx,
    s: CreateMarketState,
    r: CreateMarketRules,
) -> bool {
    let v = l2_create_market_tx_values(tx);
    let (account, api_key, market_index, market_type) = (v[0], v[1], v[2], v[3]);
    let (base_asset, quote_asset, start, end) = (v[4], v[5], v[6], v[7]);
    let (size_mult, quote_mult, taker_fee, maker_fee) = (v[8], v[9], v[10], v[11]);
    let (min_base, min_quote, order_quote_limit, oi_limit) = (v[12], v[13], v[14], v[15]);
    let (cap, settlement_type, default_price, frozen) = (v[16], v[17], v[18], v[19]);
    &&& account == s.owner_account_index@
    &&& api_key == s.api_key_index@
    &&& market_index != r.nil_market_index
    &&& market_index == s.binary_options_market_index@
    &&& market_type == r.market_type_binary_options
    &&& account == s.market_operator_account_index@
    &&& base_asset == r.usdc_asset_index
    &&& quote_asset == r.usdc_asset_index
    &&& s.usdc_slot_asset_index@ == r.usdc_asset_index
    &&& !s.is_usdc_asset_empty
    &&& s.market_status@ == r.market_status_expired
    &&& s.total_order_count@ == 0
    &&& s.open_interest@ == 0
    &&& r.nil_public_market_index < s.next_public_market_index@
    &&& s.next_public_market_index@ != r.max_public_market_index + 1
    &&& start < end
    &&& size_mult != 0
    &&& quote_mult != 0
    &&& cap != 0
    &&& cap * quote_mult == size_mult
    &&& settlement_type <= 1
    &&& frozen <= 1
    &&& default_price <= cap
    &&& taker_fee <= r.fee_tick
    &&& maker_fee <= r.fee_tick
    &&& quote_mult % (r.fee_tick as nat) == 0
    &&& min_base != 0
    &&& min_quote != 0
    &&& min_quote <= order_quote_limit
    &&& order_quote_limit <= oi_limit
    &&& oi_limit * quote_mult <= i64_max() * r.usdc_to_collateral_multiplier
}

fn field_i64(n: i64) -> (r: u64)
    ensures
        r == i64_field(n),
        r < p(),
{
    GoldilocksField::from_canonical_i64(n).to_canonical_u64()
}

fn create_market_ranges(tx: &L2CreateMarketTx, r: &CreateMarketRules) -> (ok: bool)
    requires
        create_market_rules_valid(*r),
    ensures
        ok == create_market_ranges_hold(*tx, *r),
{
    fits_bits(field_i64(tx.start_timestamp), r.timestamp_bits)
        && fits_bits(field_i64(tx.end_timestamp), r.timestamp_bits)
        && fits_bits(field_i64(tx.size_extension_multiplier), r.asset_extension_multiplier_bits)
        && fits_bits(field_i64(tx.quote_extension_multiplier), r.asset_extension_multiplier_bits)
        && fits_bits(tx.taker_fee as u64, 24)
        && fits_bits(tx.maker_fee as u64, 24)
        && fits_bits(field_i64(tx.min_base_amount), r.order_base_amount_bits)
        && fits_bits(field_i64(tx.min_quote_amount), r.order_quote_size_bits)
        && fits_bits(field_i64(tx.order_quote_limit), r.order_quote_size_bits)
        && fits_bits(field_i64(tx.open_interest_limit), r.market_open_interest_bits)
        && fits_bits(tx.settlement_cap as u64, r.order_price_bits)
        && fits_bits(tx.default_price as u64, r.order_price_bits)
}

fn create_market_rules(tx: &L2CreateMarketTx, s: &CreateMarketState, r: &CreateMarketRules) -> (ok: bool)
    requires
        create_market_rules_valid(*r),
    ensures
        ok == create_market_rules_hold(*tx, *s, *r),
{
    let account = field_i64(tx.account_index);
    let market_index = field_i64(tx.market_index as i64);
    let base_asset = field_i64(tx.base_asset_id as i64);
    let quote_asset = field_i64(tx.quote_asset_id as i64);
    let start = field_i64(tx.start_timestamp);
    let end = field_i64(tx.end_timestamp);
    let size_mult = field_i64(tx.size_extension_multiplier);
    let quote_mult = field_i64(tx.quote_extension_multiplier);
    let min_base = field_i64(tx.min_base_amount);
    let min_quote = field_i64(tx.min_quote_amount);
    let order_quote_limit = field_i64(tx.order_quote_limit);
    let oi_limit = field_i64(tx.open_interest_limit);
    let cap = tx.settlement_cap as u64;
    proof {
        lemma_mul_upper_bound(cap as int, u64::MAX as int, quote_mult as int, u64::MAX as int);
        lemma_mul_upper_bound(oi_limit as int, u64::MAX as int, quote_mult as int, u64::MAX as int);
        lemma_mul_upper_bound(
            i64_max() as int,
            u64::MAX as int,
            r.usdc_to_collateral_multiplier as int,
            u64::MAX as int,
        );
        assert(u64::MAX as int * u64::MAX as int <= u128::MAX) by (nonlinear_arith);
    }
    let extended_cap: u128 = cap as u128 * quote_mult as u128;
    let scaled_oi_limit: u128 = oi_limit as u128 * quote_mult as u128;
    let max_scaled: u128 = 9223372036854775807u128 * r.usdc_to_collateral_multiplier as u128;

    let signer_ok = account == s.owner_account_index.to_canonical_u64()
        && (tx.api_key_index as u64) == s.api_key_index.to_canonical_u64()
        && account == s.market_operator_account_index.to_canonical_u64();
    let slot_ok = market_index != r.nil_market_index
        && market_index == s.binary_options_market_index.to_canonical_u64()
        && (tx.market_type as u64) == r.market_type_binary_options;
    let assets_ok = base_asset == r.usdc_asset_index && quote_asset == r.usdc_asset_index
        && s.usdc_slot_asset_index.to_canonical_u64() == r.usdc_asset_index
        && !s.is_usdc_asset_empty;
    let drained_ok = s.market_status.to_canonical_u64() == r.market_status_expired
        && s.total_order_count.is_zero() && s.open_interest.is_zero();
    let next = s.next_public_market_index.to_canonical_u64();
    let counter_ok = r.nil_public_market_index < next && next != r.max_public_market_index + 1;
    let terms_ok = start < end && size_mult != 0 && quote_mult != 0 && cap != 0
        && extended_cap == size_mult as u128 && tx.settlement_type <= 1 && tx.is_frozen <= 1
        && tx.default_price <= tx.settlement_cap;
    let fees_ok = (tx.taker_fee as u64) <= r.fee_tick && (tx.maker_fee as u64) <= r.fee_tick
        && quote_mult % r.fee_tick == 0;
    let amounts_ok = min_base != 0 && min_quote != 0 && min_quote <= order_quote_limit
        && order_quote_limit <= oi_limit && scaled_oi_limit <= max_scaled;
    signer_ok && slot_ok && assets_ok && drained_ok && counter_ok && terms_ok && fees_ok
        && amounts_ok
}

impl L2CreateMarketTx {
    /// Checks the record as the market-creation transaction of a block slot: the range checks
    /// always apply, and when the slot holds this transaction (`is_enabled`) every rule of
    /// [`create_market_rules_hold`] must hold too. `true` when the constraints can be met.
    pub fn verify(&self, is_enabled: bool, s: &CreateMarketState, r: &CreateMarketRules) -> (ok: bool)
        requires
            create_market_rules_valid(*r),
        ensures
            ok == (create_market_ranges_hold(*self, *r) && (is_enabled ==> create_market_rules_hold(
                *self,
                *s,
                *r,
            ))),
    {
        let ranges = create_market_ranges(self, r);
        if !is_enabled {
            return ranges;
        }
        ranges && create_market_rules(self, s, r)
    }
}


/// The codes and widths the transfer rules compare against: the transfer-asset instruction
/// type, the nil strategy index and the bit width of a transfer amount.
#[derive(Clone, Copy, Debug)]
pub struct TransferRules {
    pub transfer_asset_instruction: u64,
    pub nil_strategy_index: u64,
    pub max_transfer_bits: u32,
}

/// What the transfer check reads of the transaction state: the pending instruction on top of
/// the register stack (its type, account, generic fields, pending type and size), the sender's
/// and receiver's account indices and whether each account is new, the asset index in the
/// transfer's asset slot and whether that asset is empty.
#[derive(Clone, Copy, Debug)]
pub struct TransferState {
    pub instruction_type: GoldilocksField,
    pub register_account_index: GoldilocksField,
    pub register_generic_field_0: GoldilocksField,
    pub register_generic_field_2: GoldilocksField,
    pub register_pending_type: GoldilocksField,
    pub register_pending_size: GoldilocksField,
    pub sender_account_index: GoldilocksField,
    pub receiver_account_index: GoldilocksField,
    pub is_new_sender: bool,
    pub is_new_receiver: bool,
    pub tx_asset_index: GoldilocksField,
    pub is_asset_empty: bool,
}

/// The constraints of an internal transfer, over the field values of the record: the amount
/// always fits its width; when the transfer is the slot's transaction, the pending instruction
/// is a transfer by the sender, and the record names the sender; while the sender exists, the
/// record names the receiver the instruction names; and while both exist, the asset, route and
/// amount are those of the instruction and the asset is the one in the transfer's slot.
pub open spec fn transfer_constraints_hold(
    tx: InternalTransferTx,
    s: TransferState,
    r: TransferRules,
    is_enabled: bool,
) -> bool {
    let v = internal_transfer_tx_values(tx);
    let amount = limbs_value(tx.amount@);
    let sender_exists = is_enabled && !s.is_new_sender;
    let both_exist = sender_exists && !s.is_new_receiver;
    &&& amount < pow2(r.max_transfer_bits as nat)
    &&& is_enabled ==> {
        &&& s.instruction_type@ == r.transfer_asset_instruction
        &&& v[0] == s.sender_account_index@
        &&& s.register_account_index@ == s.sender_account_index@
    }
    &&& sender_exists ==> {
        &&& v[1] == s.receiver_account_index@
        &&& s.receiver_account_index@ == s.register_generic_field_0@
    }
    &&& both_exist ==> {
        &&& v[2] == s.register_generic_field_2@
        &&& v[2] == s.tx_asset_index@
        &&& v[3] == s.register_pending_type@
        &&& to_field(amount as int) == s.register_pending_size@
    }
}

/// A transfer goes ahead when it is the slot's transaction, both accounts exist, the asset is
/// not empty, the accounts differ and the strategy index is below the nil one.
pub open spec fn transfer_goes_ahead(
    tx: InternalTransferTx,
    s: TransferState,
    r: TransferRules,
    is_enabled: bool,
) -> bool {
    let v = internal_transfer_tx_values(tx);
    &&& is_enabled
    &&& !s.is_new_sender
    &&& !s.is_new_receiver
    &&& !s.is_asset_empty
    &&& v[0] != v[1]
    &&& v[4] < r.nil_strategy_index
}

fn amount_within(d: &Vec<u32>, bits: u32) -> (r: Option<u64>)
    requires
        bits < 64,
    ensures
        r is Some <==> limbs_value(d@) < pow2(bits as nat),
        r matches Some(v) ==> v == limbs_value(d@),
{
    proof {
        lemma_u64_pow2_no_overflow(bits as nat);
        reveal_with_fuel(limb_capacity, 3);
    }
    match digits_to_u64(d) {
        Some(v) => {
            if fits_bits(v, bits) {
                Some(v)
            } else {
                None
            }
        },
        None => None,
    }
}

impl InternalTransferTx {
    /// Checks the record as the internal-transfer transaction of a block slot. `None` when the
    /// constraints of [`transfer_constraints_hold`] cannot be met; otherwise whether the
    /// transfer goes ahead ([`transfer_goes_ahead`]).
    pub fn verify(&self, is_enabled: bool, s: &TransferState, r: &TransferRules) -> (res: Option<bool>)
        requires
            r.max_transfer_bits < 64,
        ensures
            res is Some <==> transfer_constraints_hold(*self, *s, *r, is_enabled),
            res matches Some(b) ==> b == transfer_goes_ahead(*self, *s, *r, is_enabled),
    {
        let from = field_i64(self.from_account_index);
        let to = field_i64(self.to_account_index);
        let asset = (self.asset_index as u16) as u64;
        let route = self.route_type as u64;
        let strategy = self.strategy_index as u64;
        let amount = match amount_within(&self.amount, r.max_transfer_bits) {
            Some(a) => a,
            None => {
                return None;
            },
        };
        let sender = s.sender_account_index.to_canonical_u64();
        let receiver = s.receiver_account_index.to_canonical_u64();
        if is_enabled {
            if s.instruction_type.to_canonical_u64() != r.transfer_asset_instruction || from
                != sender || s.register_account_index.to_canonical_u64() != sender {
                return None;
            }
        }
        let sender_exists = is_enabled && !s.is_new_sender;
        if sender_exists {
            if to != receiver || receiver != s.register_generic_field_0.to_canonical_u64() {
                return None;
            }
        }
        let both_exist = sender_exists && !s.is_new_receiver;
        if both_exist {
            let amount_field = GoldilocksField::from_noncanonical_u64(amount);
            if asset != s.register_generic_field_2.to_canonical_u64() || asset
                != s.tx_asset_index.to_canonical_u64() || route
                != s.register_pending_type.to_canonical_u64() || !amount_field.equals(
                &s.register_pending_size,
            ) {
                return None;
            }
        }
        Some(both_exist && !s.is_asset_empty && from != to && strategy < r.nil_strategy_index)
    }
}

/// An account's holdings of the transferred asset: its spot balance, its margined balance and
/// its strategy balance.
#[derive(Clone, Copy, Debug)]
pub struct TransferSide {
    pub spot_balance: u128,
    pub margined_balance: i128,
    pub strategy: i128,
}

/// The holdings a transfer touches: the sender's, the receiver's and the asset's total
/// supplied amount.
#[derive(Clone, Copy, Debug)]
pub struct TransferLedger {
    pub sender: TransferSide,
    pub receiver: TransferSide,
    pub total_supplied: u128,
}

/// What applying the transferred amount to one account produced: whether its spot balance
/// stayed valid, and its holdings afterwards.
#[derive(Clone, Copy, Debug)]
pub struct AssetDeltaOutcome {
    pub spot_balance_valid: bool,
    pub side: TransferSide,
}

/// One side of a transfer can be committed: its spot balance stayed valid, its spot and
/// margined balances fit 96 bits, and its margined balance is negative only for a universal
/// asset.
pub open spec fn side_commits(o: AssetDeltaOutcome, is_asset_universal: bool) -> bool {
    &&& o.spot_balance_valid
    &&& o.side.spot_balance < pow2_96()
    &&& abs_int(o.side.margined_balance as int) < pow2_96()
    &&& !(o.side.margined_balance < 0 && !is_asset_universal)
}

pub(crate) fn side_commits_exec(o: &AssetDeltaOutcome, is_asset_universal: bool) -> (r: bool)
    ensures
        r == side_commits(*o, is_asset_universal),
{
    o.spot_balance_valid && o.side.spot_balance < 79228162514264337593543950336u128
        && abs_i128(o.side.margined_balance) < 79228162514264337593543950336u128 && !(
    o.side.margined_balance < 0 && !is_asset_universal)
}

/// Commits an internal transfer: given whether it goes ahead (`success`), whether the asset is
/// universal, what applying the amount did to the sender and to the receiver, and the asset's
/// new total supplied amount, the ledger takes the new holdings exactly when the transfer goes
/// ahead and both sides can be committed, and stays as it was otherwise. The result says
/// whether it was committed, which is when the pending instruction leaves the register stack.
pub fn apply_internal_transfer(
    ledger: &mut TransferLedger,
    success: bool,
    is_asset_universal: bool,
    sender: &AssetDeltaOutcome,
    receiver: &AssetDeltaOutcome,
    new_total_supplied: u128,
) -> (ok: bool)
    ensures
        ok == (success && side_commits(*sender, is_asset_universal) && side_commits(
            *receiver,
            is_asset_universal,
        )),
        ok ==> *final(ledger) == (TransferLedger {
            sender: sender.side,
            receiver: receiver.side,
            total_supplied: new_total_supplied,
        }),
        !ok ==> *final(ledger) == *old(ledger),
        ok ==> final(ledger).sender.spot_balance < pow2_96() && final(ledger).receiver.spot_balance
            < pow2_96(),
        ok && !is_asset_universal ==> final(ledger).sender.margined_balance >= 0
            && final(ledger).receiver.margined_balance >= 0,
{
    let ok = success && side_commits_exec(sender, is_asset_universal) && side_commits_exec(
        receiver,
        is_asset_universal,
    );
    if ok {
        ledger.sender = sender.side;
        ledger.receiver = receiver.side;
        ledger.total_supplied = new_total_supplied;
    }
    ok
}


/// The transaction-type codes a slot of a light block may carry: the empty slot, order
/// creation, cancellation and modification, and the internal order claim.
#[derive(Clone, Copy, Debug)]
pub struct LightTxTypes {
    pub empty: u8,
    pub l2_create_order: u8,
    pub l2_cancel_order: u8,
    pub l2_modify_order: u8,
    pub internal_claim_order: u8,
}

/// Whether a slot of a light block may carry a transaction of type `tx_type`; the light
/// circuit is unsatisfiable for any other type.
pub fn is_allowed_light_tx_type(tx_type: u8, t: &LightTxTypes) -> (r: bool)
    ensures
        r == (tx_type == t.empty || tx_type == t.l2_create_order || tx_type == t.l2_cancel_order
            || tx_type == t.l2_modify_order || tx_type == t.internal_claim_order),
{
    tx_type == t.empty || tx_type == t.l2_create_order || tx_type == t.l2_cancel_order || tx_type
        == t.l2_modify_order || tx_type == t.internal_claim_order
}

} // verus!
