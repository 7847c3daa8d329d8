# Invoice ledger

Three contracts for the financing of invoices, verified with Verus.

- `compliance`: which addresses are cleared, who decided so, and until when.
- `oracle_registry`: oracles that stake tokens and vote on whether an invoice is
  genuine. Votes weigh as much as the stake behind them.
- `invoice`: the life of an invoice from its creation over its verification and its
  funding to its payment, default, cancellation or expiry.

`src/` holds what the contracts decide. Each contract is a struct with its whole
state. Its view is a state machine: a spec function for every request says what the
request makes of the state, or why it comes to nothing. A method of the contract
does what the spec function of the same name says, and a request that fails changes
nothing. The time, and what other contracts reply, are arguments.

What holds whatever is asked of the contracts stands in `compliance/laws.rs`,
`oracle_registry/laws.rs`, in `validity.rs`, `laws.rs`, `authority.rs`, `balances.rs`
and `frames.rs` under `invoice/`, and, for the three together, in `interplay.rs`.

Lists and maps are kept by the Soroban host. `collections.rs` says what is believed
of it; everything else is proved.

`app/` runs the contracts on the network: it authenticates callers, loads and stores
the state, publishes events, moves tokens and makes the calls between contracts.
