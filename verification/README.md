# culling

The decision logic of three Solana programs — `asset` (a vault, its game token, card mints,
token and card sales, card metadata), `game` (staked two-player games and player records) and
`governance` (amendments of card metadata settled by token-backed votes) — written in Verus.

- `src/` is the verified library. Each instruction's accounts are a plain-value struct
  (`key::Key` for addresses); its method checks the signer, updates the account data and
  returns the transfers, mints, closings and metadata writes to perform. `instruction.rs` builds
  system-program transfers through `solana_program::system_instruction::transfer`.
- `app/` is the Anchor glue: account constraints, reading accounts into the library's values,
  the cross-program calls, and writing accounts back.
- `tests/` runs the library on concrete accounts.
