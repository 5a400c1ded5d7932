# stellarpass

The membership and access-control rules of the StellarPass Soroban contract,
verified with Verus.

- `src/types.rs`: addresses and symbols (held as their text), communities,
  role records, storage keys, errors and events.
- `src/rules.rs`: each decision of the contract as a function from what was
  read from storage and the ledger time to what is written and published
  (initialization, community creation, grant, revoke, upgrade authorization,
  access).
- `src/contract.rs`: the whole contract state (`ContractState`), the step of
  each operation over it, and `StellarPassContract`, which keeps the state in
  vectors and refines those steps exactly.
- `src/laws.rs`: properties of the operations together (consistency of the
  state, idempotent grants and revokes, re-granting after a revoke, expiry,
  grants and revokes holding over later operations and clock moves, refused
  requests changing nothing, the upgrade admin touching code only).
- `app/`: the Soroban contract itself; it reaches the host (storage,
  authorization, ledger time, events, code deployment) and takes every
  decision through `src/rules.rs`. The library uses `std` (`String`, `Vec`),
  so `app/` is a `std` crate.
