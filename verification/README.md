# rent_wallet

A rent wallet: an administrator credits and debits per-account `i128`
balances and may pause the wallet, which freezes balances.

- `src/` is the verified library: account keys (`address`), the balance map
  (`balances`), the wallet's state machine with its contracts (`wallet`), and
  the laws proved of it (`laws`).
- `app/` is the Soroban contract around it: it loads the wallet from instance
  storage, has the host check the administrator's authorization, applies the
  request through the library, writes back what changed and publishes the
  event.
- `tests/` runs the library on concrete requests.
