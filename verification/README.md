# nft_marketplace_program

The rules of a Solana NFT marketplace, verified with Verus: listing, buying
and withdrawing NFTs, making and withdrawing offers, creating collections and
minting into them, and the program's admin settings.

- `src/` is the verified library. Each instruction is a function from plain
  account values and arguments to the accounts it writes, the token and
  lamport movements it asks for, and the event it reports. Account
  constraints are `validate` methods on the account types. Contracts name the
  first failing check of every instruction exactly; `src/laws.rs` proves the
  properties that span instructions (a closed listing stays closed, a fee
  never exceeds the price, collection item counts grow by one per mint).
- Two calls go to outside crates, behind trusted wrappers: the program-derived
  address search of `solana_program` (`src/pda.rs`) and the Borsh decoding of
  Metaplex metadata accounts (`src/metadata.rs`).
- `app/` is the Anchor program around the library: account structs, the
  cross-program calls to the token, system and metadata programs, and events.

The address seeds (`src/constants.rs`, `app/constants.rs`) are this
project's own choice of prefix: `nft_marketplace`.
