# aquasol

Verified core of a yield-stripping protocol: an underlying token is split into a principal
token (PT), redeemable after maturity, and a yield token (YT), whose holder claims yield as
time passes.

- `src/` is the library, verified with Verus. Each instruction is a function from the stored
  state, the clock and the arguments to either a refusal (`ErrorCode`) or the new state and the
  token operations to perform (`cpi::TokenInstruction`). Each instruction whose arithmetic can
  overflow has a `*_computable` companion that decides, without overflowing, whether it can be
  called. `utils::token_value` values PT and YT; `lifecycle` and the proof functions next to the
  instructions state the protocol's laws.
- `app/` is the on-chain program: account validation, the clock, the token-program and pool
  calls that perform the library's operations, and account storage.
- `tests/` runs the library on concrete values.
