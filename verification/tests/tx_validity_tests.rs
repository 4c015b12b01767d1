use lighter_circuit::field::GoldilocksField;
use lighter_circuit::transactions::{InternalTransferTx, L2CreateMarketTx};
use lighter_circuit::tx_validity::{
    apply_internal_transfer, is_allowed_light_tx_type, LightTxTypes, AssetDeltaOutcome, CreateMarketRules, CreateMarketState, TransferLedger,
    TransferRules, TransferSide, TransferState,
};

fn f(n: u64) -> GoldilocksField {
    GoldilocksField::from_canonical_u64(n)
}

fn rules() -> CreateMarketRules {
    CreateMarketRules {
        nil_market_index: 255,
        market_type_binary_options: 3,
        usdc_asset_index: 3,
        market_status_expired: 4,
        nil_public_market_index: 0,
        max_public_market_index: 1000,
        fee_tick: 1_000_000,
        usdc_to_collateral_multiplier: 1_000_000,
        timestamp_bits: 48,
        asset_extension_multiplier_bits: 56,
        order_base_amount_bits: 48,
        order_quote_size_bits: 48,
        market_open_interest_bits: 56,
        order_price_bits: 32,
    }
}

fn market_tx() -> L2CreateMarketTx {
    L2CreateMarketTx {
        account_index: 7,
        api_key_index: 2,
        market_index: 10,
        market_type: 3,
        base_asset_id: 3,
        quote_asset_id: 3,
        start_timestamp: 100,
        end_timestamp: 200,
        size_extension_multiplier: 5_000_000,
        quote_extension_multiplier: 1_000_000,
        taker_fee: 500,
        maker_fee: 0,
        min_base_amount: 1,
        min_quote_amount: 10,
        order_quote_limit: 1_000,
        open_interest_limit: 100_000,
        settlement_cap: 5,
        settlement_type: 1,
        default_price: 3,
        is_frozen: 0,
    }
}

fn market_state() -> CreateMarketState {
    CreateMarketState {
        owner_account_index: f(7),
        api_key_index: f(2),
        binary_options_market_index: f(10),
        market_operator_account_index: f(7),
        usdc_slot_asset_index: f(3),
        is_usdc_asset_empty: false,
        market_status: f(4),
        total_order_count: f(0),
        open_interest: f(0),
        next_public_market_index: f(5),
    }
}

#[test]
fn create_market_on_drained_slot_is_valid() {
    assert!(market_tx().verify(true, &market_state(), &rules()));
}

#[test]
fn create_market_rules_only_bind_when_enabled() {
    let mut tx = market_tx();
    tx.account_index = 8;
    assert!(tx.verify(false, &market_state(), &rules()));
    assert!(!tx.verify(true, &market_state(), &rules()));
}

#[test]
fn create_market_range_checks_always_bind() {
    let mut tx = market_tx();
    tx.start_timestamp = 1 << 50;
    assert!(!tx.verify(false, &market_state(), &rules()));
}

#[test]
fn create_market_by_other_operator_is_invalid() {
    let mut s = market_state();
    s.market_operator_account_index = f(9);
    assert!(!market_tx().verify(true, &s, &rules()));
}

#[test]
fn create_market_needs_exact_extended_cap() {
    let mut tx = market_tx();
    tx.size_extension_multiplier = 5_000_001;
    assert!(!tx.verify(true, &market_state(), &rules()));
}

#[test]
fn create_market_needs_whole_fee_ticks() {
    let mut tx = market_tx();
    tx.quote_extension_multiplier = 1_500_001;
    tx.size_extension_multiplier = 7_500_005;
    assert!(!tx.verify(true, &market_state(), &rules()));
    tx.quote_extension_multiplier = 2_000_000;
    tx.size_extension_multiplier = 10_000_000;
    assert!(tx.verify(true, &market_state(), &rules()));
}

#[test]
fn create_market_on_nil_slot_is_invalid() {
    let mut tx = market_tx();
    tx.market_index = 255;
    let mut s = market_state();
    s.binary_options_market_index = f(255);
    assert!(!tx.verify(true, &s, &rules()));
}

#[test]
fn create_market_with_exhausted_public_index_is_invalid() {
    let mut s = market_state();
    s.next_public_market_index = f(1001);
    assert!(!market_tx().verify(true, &s, &rules()));
    s.next_public_market_index = f(1000);
    assert!(market_tx().verify(true, &s, &rules()));
    s.next_public_market_index = f(0);
    assert!(!market_tx().verify(true, &s, &rules()));
}

#[test]
fn create_market_needs_start_before_end() {
    let mut tx = market_tx();
    tx.end_timestamp = 100;
    assert!(!tx.verify(true, &market_state(), &rules()));
}

#[test]
fn create_market_default_price_is_capped() {
    let mut tx = market_tx();
    tx.default_price = 6;
    assert!(!tx.verify(true, &market_state(), &rules()));
}

#[test]
fn create_market_on_live_slot_is_invalid() {
    let mut s = market_state();
    s.open_interest = f(1);
    assert!(!market_tx().verify(true, &s, &rules()));
    let mut s = market_state();
    s.market_status = f(1);
    assert!(!market_tx().verify(true, &s, &rules()));
}

#[test]
fn create_market_scaled_open_interest_limit_fits_collateral() {
    let mut tx = market_tx();
    tx.quote_extension_multiplier = 1_000_000 << 20;
    tx.settlement_cap = 1;
    tx.size_extension_multiplier = 1_000_000 << 20;
    tx.default_price = 1;
    tx.open_interest_limit = 1 << 50;
    assert!(!tx.verify(true, &market_state(), &rules()));
    tx.open_interest_limit = 1 << 30;
    assert!(tx.verify(true, &market_state(), &rules()));
}

fn transfer_rules() -> TransferRules {
    TransferRules { transfer_asset_instruction: 9, nil_strategy_index: 255, max_transfer_bits: 60 }
}

fn transfer_tx() -> InternalTransferTx {
    InternalTransferTx {
        from_account_index: 1,
        to_account_index: 2,
        asset_index: 3,
        strategy_index: 0,
        route_type: 1,
        amount: vec![5],
    }
}

fn transfer_state() -> TransferState {
    TransferState {
        instruction_type: f(9),
        register_account_index: f(1),
        register_generic_field_0: f(2),
        register_generic_field_2: f(3),
        register_pending_type: f(1),
        register_pending_size: f(5),
        sender_account_index: f(1),
        receiver_account_index: f(2),
        is_new_sender: false,
        is_new_receiver: false,
        tx_asset_index: f(3),
        is_asset_empty: false,
    }
}

#[test]
fn matching_transfer_goes_ahead() {
    assert_eq!(transfer_tx().verify(true, &transfer_state(), &transfer_rules()), Some(true));
}

#[test]
fn disabled_transfer_only_range_checks() {
    let mut s = transfer_state();
    s.instruction_type = f(1);
    assert_eq!(transfer_tx().verify(false, &s, &transfer_rules()), Some(false));
    let mut tx = transfer_tx();
    tx.amount = vec![0, 1 << 28];
    assert_eq!(tx.verify(false, &transfer_state(), &transfer_rules()), None);
}

#[test]
fn transfer_amount_with_zero_high_digits_is_read_by_value() {
    let mut tx = transfer_tx();
    tx.amount = vec![5, 0, 0];
    assert_eq!(tx.verify(true, &transfer_state(), &transfer_rules()), Some(true));
    tx.amount = vec![5, 0, 1];
    assert_eq!(tx.verify(true, &transfer_state(), &transfer_rules()), None);
}

#[test]
fn transfer_amount_must_match_instruction() {
    let mut s = transfer_state();
    s.register_pending_size = f(6);
    assert_eq!(transfer_tx().verify(true, &s, &transfer_rules()), None);
}

#[test]
fn transfer_to_new_receiver_stops_without_asset_checks() {
    let mut s = transfer_state();
    s.is_new_receiver = true;
    s.tx_asset_index = f(4);
    assert_eq!(transfer_tx().verify(true, &s, &transfer_rules()), Some(false));
    s.register_generic_field_0 = f(3);
    assert_eq!(transfer_tx().verify(true, &s, &transfer_rules()), None);
}

#[test]
fn transfer_to_self_does_not_go_ahead() {
    let mut tx = transfer_tx();
    tx.to_account_index = 1;
    let mut s = transfer_state();
    s.receiver_account_index = f(1);
    s.register_generic_field_0 = f(1);
    assert_eq!(tx.verify(true, &s, &transfer_rules()), Some(false));
}

#[test]
fn transfer_with_nil_strategy_does_not_go_ahead() {
    let mut tx = transfer_tx();
    tx.strategy_index = 255;
    assert_eq!(tx.verify(true, &transfer_state(), &transfer_rules()), Some(false));
}

#[test]
fn transfer_of_empty_asset_does_not_go_ahead() {
    let mut s = transfer_state();
    s.is_asset_empty = true;
    assert_eq!(transfer_tx().verify(true, &s, &transfer_rules()), Some(false));
}

fn side(spot: u128, margined: i128, strategy: i128) -> TransferSide {
    TransferSide { spot_balance: spot, margined_balance: margined, strategy }
}

fn ledger() -> TransferLedger {
    TransferLedger { sender: side(100, 50, 0), receiver: side(10, 0, 0), total_supplied: 500 }
}

fn outcome(valid: bool, s: TransferSide) -> AssetDeltaOutcome {
    AssetDeltaOutcome { spot_balance_valid: valid, side: s }
}

#[test]
fn committed_transfer_takes_new_holdings() {
    let mut l = ledger();
    let ok = apply_internal_transfer(
        &mut l,
        true,
        false,
        &outcome(true, side(90, 50, 0)),
        &outcome(true, side(20, 0, 0)),
        500,
    );
    assert!(ok);
    assert_eq!(l.sender.spot_balance, 90);
    assert_eq!(l.receiver.spot_balance, 20);
    assert_eq!(l.total_supplied, 500);
}

#[test]
fn negative_margin_of_non_universal_asset_is_not_committed() {
    let mut l = ledger();
    let ok = apply_internal_transfer(
        &mut l,
        true,
        false,
        &outcome(true, side(0, -10, 0)),
        &outcome(true, side(20, 10, 0)),
        510,
    );
    assert!(!ok);
    assert_eq!(l.sender.spot_balance, 100);
    assert_eq!(l.sender.margined_balance, 50);
    assert_eq!(l.total_supplied, 500);
}

#[test]
fn negative_margin_of_universal_asset_is_committed() {
    let mut l = ledger();
    let ok = apply_internal_transfer(
        &mut l,
        true,
        true,
        &outcome(true, side(0, -10, 0)),
        &outcome(true, side(20, 10, 0)),
        510,
    );
    assert!(ok);
    assert_eq!(l.sender.margined_balance, -10);
    assert_eq!(l.total_supplied, 510);
}

#[test]
fn balance_over_96_bits_is_not_committed() {
    let mut l = ledger();
    let ok = apply_internal_transfer(
        &mut l,
        true,
        false,
        &outcome(true, side(90, 50, 0)),
        &outcome(true, side(1u128 << 96, 0, 0)),
        500,
    );
    assert!(!ok);
    assert_eq!(l.receiver.spot_balance, 10);
}

#[test]
fn invalid_spot_balance_or_stopped_transfer_is_not_committed() {
    let mut l = ledger();
    assert!(!apply_internal_transfer(
        &mut l,
        true,
        false,
        &outcome(false, side(90, 50, 0)),
        &outcome(true, side(20, 0, 0)),
        500,
    ));
    assert!(!apply_internal_transfer(
        &mut l,
        false,
        false,
        &outcome(true, side(90, 50, 0)),
        &outcome(true, side(20, 0, 0)),
        500,
    ));
    assert_eq!(l.sender.spot_balance, 100);
}

#[test]
fn light_block_carries_only_order_transactions() {
    let t = LightTxTypes {
        empty: 0,
        l2_create_order: 14,
        l2_cancel_order: 15,
        l2_modify_order: 17,
        internal_claim_order: 22,
    };
    for ty in [0u8, 14, 15, 17, 22] {
        assert!(is_allowed_light_tx_type(ty, &t));
    }
    for ty in [1u8, 2, 16, 18, 21, 23, 255] {
        assert!(!is_allowed_light_tx_type(ty, &t));
    }
}
