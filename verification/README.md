# game_core_marketplace

A marketplace for Core assets, verified with Verus: minting an asset with
immutable attributes and optional royalties, listing it for a price (the asset is
delegated to and frozen by the listing account), cancelling a listing, and buying
a listed asset (the buyer pays the price to the seller and the platform fee to the
treasury).

- `src/` is the verified library. `marketplace` holds the instructions' checks and
  state changes and the calls each one makes; `delegation` holds the step functions
  that decide, answer by answer, the calls that delegate an asset to its listing;
  `laws` states and proves what holds across calls and instructions. `keys`,
  `state`, `error` and `core_calls` hold the data they work on.
- `app/` is the on-chain program: Anchor accounts, the calls into Core and the
  system program that the library decides on, and conversions.
- `tests/` runs the library on concrete values.
