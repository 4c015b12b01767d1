//! Witness-level model of an exchange rollup circuit: Goldilocks field values,
//! limb big integers, the big-integer division gadget with its witness generator,
//! Schnorr signature targets, order-book path updates, margin and pool-share formulas,
//! the jump state carried between block proofs, the transaction records the circuit
//! consumes, and the validity rules of trades and transactions over their values.
pub mod field;
pub mod limbs;
pub mod circuit;
pub mod builder;
pub mod div_rem;
pub mod schnorr;
pub mod matching;
pub mod liquidation;
pub mod delta;
pub mod transactions;
pub mod pools;
pub mod jump;
pub mod locking;
pub mod order_counts;
pub mod trade_validity;
pub mod tx_validity;
pub mod force_burn;
pub mod mint_shares;
pub mod share_book;
pub mod create_order;
pub mod self_trade;
pub mod trade_size;
