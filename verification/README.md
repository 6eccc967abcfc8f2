# compliance_kit

Compliance primitives for permissioned tokens, verified with Verus.

- `src/denylist_gate.rs`: an administrator-managed denylist that other
  contracts query before moving funds.
- `src/allowlist_token.rs`: a front for an existing token that only hands
  on transfers between allowlisted addresses and publishes blocked attempts.
- `src/jurisdiction_flag.rs`: per-address jurisdiction codes, optionally
  time-bound by ledger sequence number, and the permission check over them.
- `src/denylist_gate_consumer.rs`: an example token whose transfers consult
  a circuit breaker and a denylist gate.
- `src/pausable.rs`, `src/address.rs`, `src/address_map.rs`: the pause
  switch, addresses, and the per-address store the contracts share.

Each contract module has two layers. The *steps* (`*_step` functions) decide
an operation from the values read out of storage: whose authorization it
demands, its result, and the writes, events and outgoing transfers to carry
out. The *model* (`DenylistGate`, `AllowlistToken`, `JurisdictionFlag`,
`ExampleToken`) holds the whole storage in memory and runs the same steps;
its operations are specified as transitions of an abstract state, and the
laws of each contract are proof functions over those transitions.

`app/` holds the Soroban contracts: each contract function reads the host's
storage and ledger, calls a step, demands the named authorization, and
carries out the step's writes, events and token calls. It is ordinary Rust,
outside the verified library: nothing in it is proved, and the library's
contracts hold of it only as far as it hands the steps what they ask for.
Before each call of a step that has a precondition it tests that
precondition and panics where the contract would have overflowed.
