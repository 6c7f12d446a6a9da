# dump_fun_core

The instruction logic of a bonding-curve token launcher, verified with Verus.

- `src/state.rs`: the accounts (`Global`, `BondingCurve`), instruction arguments,
  events, errors, the per-instruction account views, and the transfers, mints and
  metadata requests that an instruction asks of the system, token and metadata programs.
- `src/program.rs`: the instructions `initialize`, `set`, `create`, `buy`, `sell` and
  `withdraw`, each with a contract that fixes the new account values, the requests to
  the outside programs and the events; `buy_transfers` and `sell_transfers`, the
  transfers a trade makes before the curve is touched; and the spec functions those
  contracts use.
- `src/laws.rs`: properties across instructions: reserve gaps kept by trades, a sell
  undoing a buy and the other way round, permanent completion, and the net effect of any
  run of trades.
- `app/`: the on-chain program built with Anchor: account validation, the cross-program
  invocations that carry out the requests, events and logs.
