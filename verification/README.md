# lighter_circuit

A verified library for the witness-level logic of an exchange rollup circuit, written in
Verus. Every function under `src/` carries a `requires`/`ensures` contract that Verus proves.

- `field`: Goldilocks field elements and their arithmetic.
- `limbs`, `circuit`, `builder`: little-endian 32-bit limb numbers, wires, the partial witness,
  and a circuit builder that records constants, constraints and witness generators.
- `div_rem`: the big-integer division gadget (quotient, remainder, ceiling and signed
  division), its cache, its witness generator and the witness fills of the ceiling and sign
  outputs.
- `schnorr`: Schnorr signature values, their byte encodings and signature wires.
- `matching`: order-book path updates, the amounts ahead of an order and order leaves.
- `liquidation`, `pools`, `locking`, `order_counts`: margin, zero-price, pool-share,
  locked-balance and order-count formulas.
- `jump`: the jump state carried between block proofs and its public-input layout.
- `delta`, `transactions`: market deltas and the transaction records with their wires and
  witness setters.
- `trade_validity`, `trade_size`, `self_trade`: the matching engine's perpetual and spot trade
  checks, which cancel the taker's or the maker's order when a trade breaks the open-interest
  limits or leaves an account with an unacceptable position, balance, risk change or
  collateral; the sizing of a trade by reduce-only positions and slippage budgets; and its
  self-trade reduction.
- `tx_validity`, `create_order`, `force_burn`, `mint_shares`: the rules of market creation,
  internal transfers, order creation, forced share burns and share mints over the values of
  the record and of the transaction state, with what each decides (the operator's fee share,
  the new principal, the trigger status), the transaction types a light block may carry, and
  the commit of an internal transfer.
- `share_book`: how mints and forced burns change a pool's share book.

`tests/` runs the library on concrete values; `app/` holds serde-readable forms of the
transaction records with conversions to and from the library's types.

What the library does not hold: the rest of the circuit definitions (the other transactions'
validity and state-update constraints, the matching engine's trade execution loop and the asset
deltas it applies, the block and transaction-batch circuits, recursive proof verification,
Merkle proofs and signature verification in the circuit). They are built on the account,
market and transaction-state types, the Poseidon2 hash, the curve arithmetic and the
comparison and big-integer gadgets of the proving system, none of which this library models.
Where a check above reads one of those (a position's validity, a risk change, an asset
delta's outcome, whether an asset is universal, an order type's class), it takes the value as
an input, and it reads the comparison gadgets as comparisons of the values themselves; the
exchange's constants (asset indices, market codes, ticks, bit widths) enter as parameters.
