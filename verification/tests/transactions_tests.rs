use lighter_circuit::builder::{Builder, Relation};
use lighter_circuit::circuit::{BigUintTarget, PartialWitness, Target, WitnessError};
use lighter_circuit::field::GoldilocksField;
use lighter_circuit::transactions::{
    InternalTransferTx, InternalTransferTxTarget, InternalTransferTxTargetWitness, L1DepositTx,
    L1DepositTxTarget, L1DepositTxTargetWitness, InternalLiquidateSpotTx, InternalLiquidateSpotTxTarget, InternalLiquidateSpotTxTargetWitness,
    L1RegisterAssetTx, L1RegisterAssetTxTarget, L1RegisterAssetTxTargetWitness, L1UpdateAssetTx,
    L1UpdateAssetTxTarget, L1UpdateAssetTxTargetWitness, L2CreateOrderTx, L2CreateOrderTxTarget,
    L2CreateOrderTxTargetWitness, L2MintSharesTx, L2MintSharesTxTarget, L2MintSharesTxTargetWitness,
};

const P: u64 = 18446744069414584321;

fn value(w: &PartialWitness, t: Target) -> u64 {
    w.get_target(t).unwrap().to_canonical_u64()
}

fn big_value(w: &PartialWitness, t: &BigUintTarget) -> u128 {
    let mut v: u128 = 0;
    for limb in t.limbs.iter().rev() {
        v = (v << 32) + value(w, limb.0) as u128;
    }
    v
}

#[test]
fn liquidate_spot_wires_are_fresh_and_in_order() {
    let mut builder = Builder::new();
    builder.add_virtual_target();
    builder.add_virtual_target();
    let t = InternalLiquidateSpotTxTarget::new(&mut builder);
    assert_eq!(t.account_index.index, 2);
    assert_eq!(t.asset_index.index, 3);
    assert_eq!(t.market_index.index, 4);
    assert_eq!(t.base_amount.index, 5);
    assert_eq!(builder.num_targets, 6);
    assert!(builder.relations.is_empty());
}

#[test]
fn liquidate_spot_witness_reads_signed_values_as_their_bits() {
    let mut builder = Builder::new();
    let t = InternalLiquidateSpotTxTarget::new(&mut builder);
    let tx = InternalLiquidateSpotTx { account_index: 42, asset_index: 3, market_index: -1, base_amount: -5 };
    let mut w = PartialWitness::new();
    w.set_internal_liquidate_spot_tx_target(&t, &tx).unwrap();
    assert_eq!(value(&w, t.account_index), 42);
    assert_eq!(value(&w, t.asset_index), 3);
    // -1 read as a u64 is 2^64 - 1, which reduces to 2^32 - 2
    assert_eq!(value(&w, t.market_index), u64::MAX - P);
    assert_eq!(value(&w, t.base_amount), (u64::MAX - 4) - P);
}

#[test]
fn liquidate_spot_witness_conflict() {
    let mut builder = Builder::new();
    let t = InternalLiquidateSpotTxTarget::new(&mut builder);
    let mut w = PartialWitness::new();
    w.set_target(t.base_amount, GoldilocksField::from_canonical_u64(1)).unwrap();
    let tx = InternalLiquidateSpotTx { account_index: 1, asset_index: 1, market_index: 1, base_amount: 2 };
    let r = w.set_internal_liquidate_spot_tx_target(&t, &tx);
    assert!(matches!(r, Err(WitnessError::ConflictingValue)));
}

#[test]
fn liquidate_spot_witness_same_value_twice_is_fine() {
    let mut builder = Builder::new();
    let t = InternalLiquidateSpotTxTarget::new(&mut builder);
    let mut w = PartialWitness::new();
    let tx = InternalLiquidateSpotTx { account_index: 9, asset_index: 8, market_index: 7, base_amount: 6 };
    w.set_internal_liquidate_spot_tx_target(&t, &tx).unwrap();
    assert!(w.set_internal_liquidate_spot_tx_target(&t, &tx).is_ok());
}

#[test]
fn register_asset_wires_and_amount_limbs() {
    let mut builder = Builder::new();
    let t = L1RegisterAssetTxTarget::new(&mut builder);
    assert_eq!(t.asset_index.index, 0);
    assert_eq!(t.extension_multiplier.limbs.len(), 2);
    assert_eq!(t.extension_multiplier.limbs[0].0.index, 1);
    assert_eq!(t.min_transfer_amount.limbs[1].0.index, 4);
    assert_eq!(t.min_withdrawal_amount.limbs[0].0.index, 5);
    assert_eq!(t.margin_mode.index, 7);
    assert_eq!(t.index_price.index, 14);
    assert_eq!(builder.num_targets, 15);
    assert!(builder.relations.is_empty());
}

#[test]
fn register_asset_witness_splits_amounts_into_limbs() {
    let mut builder = Builder::new();
    let t = L1RegisterAssetTxTarget::new(&mut builder);
    let tx = L1RegisterAssetTx {
        asset_index: 5,
        extension_multiplier: 0x1_0000_0002,
        min_transfer_amount: 7,
        min_withdrawal_amount: -1,
        margin_mode: 1,
        loan_to_value: 800,
        liquidation_threshold: 900,
        liquidation_factor: 50,
        liquidation_fee: 12345,
        index_price_divider: 100,
        margin_index: 3,
        index_price: 250_000,
    };
    let mut w = PartialWitness::new();
    w.set_l1_register_asset_tx_target(&t, &tx).unwrap();
    assert_eq!(value(&w, t.asset_index), 5);
    assert_eq!(value(&w, t.extension_multiplier.limbs[0].0), 2);
    assert_eq!(value(&w, t.extension_multiplier.limbs[1].0), 1);
    assert_eq!(big_value(&w, &t.extension_multiplier), 0x1_0000_0002);
    assert_eq!(big_value(&w, &t.min_transfer_amount), 7);
    assert_eq!(value(&w, t.min_transfer_amount.limbs[1].0), 0);
    assert_eq!(big_value(&w, &t.min_withdrawal_amount), u64::MAX as u128);
    assert_eq!(value(&w, t.loan_to_value), 800);
    assert_eq!(value(&w, t.liquidation_fee), 12345);
    assert_eq!(value(&w, t.margin_index), 3);
    assert_eq!(value(&w, t.index_price), 250_000);
}

#[test]
fn register_asset_witness_conflict_on_limb() {
    let mut builder = Builder::new();
    let t = L1RegisterAssetTxTarget::new(&mut builder);
    let mut w = PartialWitness::new();
    w.set_target(t.min_transfer_amount.limbs[0].0, GoldilocksField::from_canonical_u64(9)).unwrap();
    let tx = L1RegisterAssetTx { min_transfer_amount: 7, ..L1RegisterAssetTx::default() };
    let r = w.set_l1_register_asset_tx_target(&t, &tx);
    assert!(matches!(r, Err(WitnessError::ConflictingValue)));
}

#[test]
fn register_asset_witness_short_amount_is_too_many_digits() {
    let mut builder = Builder::new();
    let mut t = L1RegisterAssetTxTarget::new(&mut builder);
    t.extension_multiplier.limbs.truncate(1);
    let tx = L1RegisterAssetTx { extension_multiplier: 0x1_0000_0000, ..L1RegisterAssetTx::default() };
    let mut w = PartialWitness::new();
    let r = w.set_l1_register_asset_tx_target(&t, &tx);
    assert!(matches!(r, Err(WitnessError::TooManyDigits)));
}

#[test]
fn update_asset_witness_writes_amounts() {
    let mut builder = Builder::new();
    let t = L1UpdateAssetTxTarget::new(&mut builder);
    assert_eq!(builder.num_targets, 12);
    assert_eq!(t.margin_mode.index, 5);
    assert_eq!(t.index_price_divider.index, 11);
    let tx = L1UpdateAssetTx {
        asset_index: -2,
        min_transfer_amount: 0x7fff_ffff_ffff_ffff,
        min_withdrawal_amount: 4,
        margin_mode: 0,
        loan_to_value: 1,
        liquidation_threshold: 2,
        liquidation_factor: 3,
        liquidation_fee: 4,
        index_price: 5,
        index_price_divider: 6,
    };
    let mut w = PartialWitness::new();
    w.set_l1_update_asset_tx_target(&t, &tx).unwrap();
    assert_eq!(value(&w, t.asset_index), (u64::MAX - 1) - P);
    assert_eq!(big_value(&w, &t.min_transfer_amount), 0x7fff_ffff_ffff_ffff);
    assert_eq!(big_value(&w, &t.min_withdrawal_amount), 4);
    assert_eq!(value(&w, t.index_price_divider), 6);
}

#[test]
fn create_order_is_ask_is_a_bool_wire() {
    let mut builder = Builder::new();
    let t = L2CreateOrderTxTarget::new(&mut builder);
    assert_eq!(builder.num_targets, 12);
    assert_eq!(t.is_ask.target.index, 6);
    assert_eq!(builder.relations.len(), 1);
    match builder.relations[0] {
        Relation::IsBool { target } => assert_eq!(target.index, 6),
        _ => panic!("expected a boolean constraint"),
    }
}

#[test]
fn create_order_witness_maps_is_ask_to_a_bit() {
    let mut builder = Builder::new();
    let t = L2CreateOrderTxTarget::new(&mut builder);
    let tx = L2CreateOrderTx {
        account_index: 11,
        api_key_index: 2,
        market_index: 1,
        client_order_index: 77,
        order_type: 1,
        time_in_force: 2,
        order_expiry: 1_700_000_000_000,
        base_amount: 1000,
        price: 4000,
        is_ask: 1,
        reduce_only: 0,
        trigger_price: 0,
    };
    let mut w = PartialWitness::new();
    w.set_l2_create_order_tx_target(&t, &tx).unwrap();
    assert_eq!(value(&w, t.is_ask.target), 1);
    assert_eq!(value(&w, t.order_expiry), 1_700_000_000_000);
    assert_eq!(value(&w, t.price), 4000);

    let mut w2 = PartialWitness::new();
    let tx2 = L2CreateOrderTx { is_ask: 5, ..tx };
    w2.set_l2_create_order_tx_target(&t, &tx2).unwrap();
    assert_eq!(value(&w2, t.is_ask.target), 0);
}

#[test]
fn mint_shares_witness_writes_values() {
    let mut builder = Builder::new();
    let t = L2MintSharesTxTarget::new(&mut builder);
    let tx = L2MintSharesTx { account_index: 3, api_key_index: 4, public_pool_index: 5, share_amount: 6 };
    let mut w = PartialWitness::new();
    w.set_l2_mint_shares_tx_target(&t, &tx).unwrap();
    assert_eq!(value(&w, t.account_index), 3);
    assert_eq!(value(&w, t.api_key_index), 4);
    assert_eq!(value(&w, t.public_pool_index), 5);
    assert_eq!(value(&w, t.share_amount), 6);
}

#[test]
fn internal_transfer_wires_and_witness() {
    let mut builder = Builder::new();
    let t = InternalTransferTxTarget::new(&mut builder);
    assert_eq!(builder.num_targets, 7);
    assert_eq!(t.strategy_index.index, 4);
    assert_eq!(t.amount.limbs[0].0.index, 5);
    assert_eq!(t.amount.limbs[1].0.index, 6);
    let tx = InternalTransferTx {
        from_account_index: 10,
        to_account_index: 20,
        asset_index: -1,
        strategy_index: 2,
        route_type: 1,
        amount: vec![5, 1, 0, 0],
    };
    let mut w = PartialWitness::new();
    w.set_internal_transfer_tx_target(&t, &tx).unwrap();
    assert_eq!(value(&w, t.from_account_index), 10);
    assert_eq!(value(&w, t.to_account_index), 20);
    // the asset index is read as a u16
    assert_eq!(value(&w, t.asset_index), 65535);
    assert_eq!(value(&w, t.route_type), 1);
    assert_eq!(value(&w, t.strategy_index), 2);
    assert_eq!(big_value(&w, &t.amount), (1u128 << 32) + 5);
}

#[test]
fn internal_transfer_amount_too_wide() {
    let mut builder = Builder::new();
    let t = InternalTransferTxTarget::new(&mut builder);
    let tx = InternalTransferTx { amount: vec![1, 2, 3], ..InternalTransferTx::default() };
    let mut w = PartialWitness::new();
    let r = w.set_internal_transfer_tx_target(&t, &tx);
    assert!(matches!(r, Err(WitnessError::TooManyDigits)));
}

#[test]
fn l1_deposit_wires_and_witness() {
    let mut builder = Builder::new();
    let t = L1DepositTxTarget::new(&mut builder);
    assert_eq!(builder.num_targets, 12);
    assert_eq!(t.l1_address.limbs.len(), 5);
    assert_eq!(t.amount.limbs[0].0.index, 6);
    assert_eq!(t.accepted_amount.limbs[1].0.index, 9);
    assert_eq!(t.asset_index.index, 10);
    assert_eq!(t.route_type.index, 11);
    let tx = L1DepositTx {
        account_index: 77,
        l1_address: vec![0xdead_beef, 0x1234_5678, 0, 0, 0xffff_ffff],
        asset_index: 3,
        route_type: 1,
        amount: 1 << 40,
        accepted_amount: 999,
    };
    let mut w = PartialWitness::new();
    w.set_l1_deposit_tx_target(&t, &tx).unwrap();
    assert_eq!(value(&w, t.account_index), 77);
    assert_eq!(value(&w, t.l1_address.limbs[0].0), 0xdead_beef);
    assert_eq!(value(&w, t.l1_address.limbs[4].0), 0xffff_ffff);
    assert_eq!(big_value(&w, &t.amount), 1 << 40);
    assert_eq!(big_value(&w, &t.accepted_amount), 999);
    assert_eq!(value(&w, t.asset_index), 3);
    assert_eq!(value(&w, t.route_type), 1);
}

#[test]
fn l1_deposit_default_address_is_zero() {
    let mut builder = Builder::new();
    let t = L1DepositTxTarget::new(&mut builder);
    let mut w = PartialWitness::new();
    w.set_l1_deposit_tx_target(&t, &L1DepositTx::default()).unwrap();
    assert_eq!(big_value(&w, &t.l1_address), 0);
    assert_eq!(value(&w, t.l1_address.limbs[2].0), 0);
}
