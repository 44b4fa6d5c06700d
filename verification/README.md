# rarible_marketplace

The decision logic of an NFT marketplace on Solana (orders, fills, fees,
royalties, Metaplex and Token-2022 NFT handling, and the royalty transfer
hook of an editions mint), written in Verus with its contracts proved.

## Layout

- `src/`: the verified library.
  - `state.rs`: markets, wallets and orders, and their edits.
  - `instructions.rs`: each marketplace instruction as a function from the
    accounts' state to the new state (or a refusal).
  - `fill.rs`: how a fill is settled: fee, royalties, seller's proceeds, the
    order's new size; who pays whom, and how.
  - `fees.rs`, `royalties.rs`: fee and royalty arithmetic, creators read from
    metadata.
  - `accounts.rs`, `cpi_accounts.rs`: which remaining accounts play which
    role, and the account lists handed to Metaplex.
  - `metaplex_ix.rs`: the Metaplex instructions (burn, create, mint, revoke,
    unverify, update, lock, unlock, freeze and thaw of a delegated account):
    their accounts, signer and writable flags, and data.
  - `nft_ops.rs`: which NFT operation (token program or Metaplex) applies.
  - `editions.rs`: the editions program: ownership of its controls and the
    royalty transfer hook.
  - `keys.rs`, `text.rs`, `metadata.rs`: addresses, number parsing, and the
    calls that decode Metaplex metadata and Token-2022 metadata.
- `tests/`: tests of the library on concrete values.
- `app/`: the runtime glue: account access, cross-program invocations,
  lamport moves.

Proved laws include: a fill splits the buyer's value exactly into fee,
royalties and seller's proceeds; creators' royalty parts never exceed the
royalty; the protocol fee never exceeds the price; every instruction keeps
an order well formed and leaves it unchanged when it refuses.
