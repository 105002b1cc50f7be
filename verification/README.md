# rakoonfun

A bonding-curve token launcher for the Radix ledger, written in Verus.

A parent component (`launcher`) keeps the defaults for new tokens, the
registered curve calculators and dex adaptors, and the token creation fees,
and launches a token curve component for each new token. A token curve
component (`token_curve`) sells and buys the token along a price curve
(the cs2 curve of `curve`: price = market cap / supply³ · supply²), runs an
optional fair launch period in which buyers get receipts, takes trade fees, and
hands the token to a dex (`dex`) once the curve's XRD target is reached.

Layout:

- `src/decimal.rs`, `src/radix.rs`: the engine's `Decimal` and
  `PreciseDecimal` as plain limbs, and the trusted calls into the engine's
  arithmetic, parsing and printing.
- `src/ledger.rs`: transaction errors and vault arithmetic.
- `src/curve.rs`: the curve calculator interface and the cs2 calculator.
- `src/token_curve.rs`: the token curve component's logic.
- `src/launcher.rs`, `src/registry.rs`: the parent component's logic and its
  name-to-address stores.
- `src/dex.rs`: the Ociswap dex adaptor's logic.
- `src/laws.rs`: properties proved of all trades and launches.
- `src/curve_laws.rs`: monotonicity properties of the cs2 calculator.
- `app/`: the Scrypto blueprints that hold the vaults and resources and call
  the library.
- `tests/`: scenarios with the engine's real arithmetic.
