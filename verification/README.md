# finance

Verified logic of a family of lending contracts for an ink! chain:

- `lasset`, `token`: a lending pool of one token. Lenders mint pool shares
  (a PSP22 token) and burn them back; borrowers hold bonds on the pool's
  debt, which grows with interest; collateral is deposited in the other
  pools of a ring, which report the values of a user's collateral and debt
  to each other for borrows, withdrawals and liquidations.
- `finance`: a ledger of several tokens driven by their token contracts,
  with block-by-block re-pricing and cumulative interest rates.
- `flash`, `admin`: a flash-loan desk, and the admin of a ring of pools
  (pool creation, prices, parameters, flash loans).
- `assetpool`: a pool that issues shares of one token.
- `wide`, `valuation`, `map`, `account`, `structs`, `errors`: 256-bit
  fixed-point arithmetic, valuations, the keyed tables behind every
  per-account record, and shared types.
- `laws`: properties that span several calls.

Every function states its behaviour in `requires`/`ensures` and is proved
by Verus; calls into other contracts are made by the caller, which hands
their outcomes in. `app/` runs the logic against a chain through a small
trait of chain calls.
