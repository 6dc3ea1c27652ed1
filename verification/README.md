# quidproquo

An NFT escrow marketplace: a buyer escrows lamports in an offer account, the
holder of the NFT accepts by handing it over, and the escrow is split between
the seller, the market place (its cut in tenths of a percent) and the creators
named in the NFT's metadata (the seller fee in basis points, shared out in
percent). Offers can be cancelled after their validity, and spent offer and
acceptance accounts closed.

- `src/` is the library, with its contracts and proofs: the account state
  (`state`), the metadata decoding (`metadata`, through the metadata program's
  crate), one module per instruction (`setup`, `make`, `accept`, `cancel`) and
  the laws that relate them (`laws`).
- `app/` is the on-chain program: Anchor's account validation, the calls into
  the system and token programs, and the application of the lamport moves that
  the library decides.
- `tests/` runs the library on concrete accounts.
