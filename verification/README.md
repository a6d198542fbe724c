# ecosystem-token

A collateral-backed ecosystem token on Solana: USDC is minted into tokens at a
fixed 1:1 peg, holders earn yield through a global yield index, exits wait 48
business hours (weekends paused), and pooled USDC/USDT is invested in Morpho,
Sky (sUSDS) and Ethena (sUSDe) strategies.

- `src/` is the verified library (Verus). Every instruction of the program is a
  transition over plain account values with an exact contract; the arithmetic
  (fees, yield index, holder yield, strategy splits, keeper-report checks,
  RWA and Aave interest) and the business-hours clock are specified and proved,
  together with the properties that span instructions (mint/burn round trip,
  pause blocks trading, one payout per unstake request, distributions stay
  within earnings, the Morpho balance stays within the investment ratio, a
  claim's effect on the shared index does not depend on the claimer's
  campaign, the clock counts exactly the weekday seconds, is additive and
  counts five days in every week). Decimal arithmetic is delegated to
  `rust_decimal` through a few trusted wrappers in `src/aave.rs`.
- `app/` is the Anchor program around the library: account layouts and
  validation, clock reads, token-program transfers, errors and logs.
- `tests/` runs the library on concrete values.
