# payment_escrow

A payment escrow contract for the Soroban platform, with its logic verified in
Verus.

- `src/` is the verified library. `types.rs` holds the records and errors,
  `model.rs` the mathematical state of the contract and what each operation
  does to it, `contract.rs` the executable operations (each proved to do
  exactly what `model.rs` says), and `laws.rs` the properties that hold across
  all operations: conservation of the escrowed funds, finality of settled
  escrows, fixed escrow terms, who may do what, and the per-party lists.
- `app/` is the Soroban contract around the library: authorisation, storage
  and the token transfers.
- `tests/` runs the flows against the Soroban test environment and the
  library's rules directly.
