# substrate_pallets

Verified core logic of four FRAME pallets, written in Verus.

- `src/kitties`: the kitties registry (create, breed, transfer), its storage
  invariant and laws (`laws.rs`), and the storage layouts and migrations
  (`storage/`).
- `src/poe`: the proof-of-existence claim registry, with its configured
  maximum claim length.
- `src/ocw_homework`, `src/ocw`: the offchain-index call and key derivation,
  and the block-number helper of the offchain-worker pallets.
- `src/dispatch.rs`, `src/scale.rs`, `src/hashing.rs`: origins and dispatch
  errors, SCALE encoding through `parity-scale-codec`, and Blake2-128 through
  `sp-io`.

Each pallet owns its storage as a value; each dispatchable's contract is a
spec transition function stating the new storage and the result exactly.
`app/` runs the migrations and the offchain-index write against a runtime's
storage.
