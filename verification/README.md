# soroban_templates

Verified logic of a family of on-chain contract templates: a ballot, a
bonding-curve sale, DAO governance, a two-party escrow, an NFT collection
and its marketplace, a multisignature wallet, a price oracle, a staking pool
and atomic swaps.

- `src/` is the library, verified with Verus. Each contract is a plain value
  holding its state; every entry point is a method whose contract states the
  resulting state, the token movements (`common::Transfer`) the ledger must
  carry out, and exactly when each error is returned. Laws that span several
  calls are public proof functions named `law_*`.
- `tests/` runs the library on concrete scenarios.
- `app/` holds the Soroban contracts around the library: they load and save
  the state in contract storage, map addresses to account ids, check
  authorizations, read balances and the ledger clock, carry out the token
  movements and publish events.
