# soroban_devkit_contracts

Verified models of nine Soroban reference contracts, written in Verus.

- `src/` — the library. Each contract is a state machine over plain values
  (`token`, `access_control`, `multisig`, `oracle`, `upgradeable` with its
  `migration` steps, `escrow`, `vesting`, `dao_voting`, `event_rich`; shared
  handles, pair keys and payments in `common`). Every operation states in its
  contract what it returns, how the state changes, and exactly when it is refused;
  the laws of each contract (conservation, lifecycle, vote-once, idempotent
  migration, vesting bounds, ...) are public proof functions beside it.
- `app/` — the Soroban contracts themselves: each call reads the ledger entries it
  touches into the library's state, lets the library decide, then does what the
  library asks (authorizations, ledger writes and TTL extensions, token transfers,
  events).
- `tests/` — the contracts' scenarios run against the library, with token payments
  carried out on the token model.
