# ddca

Recurring swaps of one token for another. An owner deposits tokens and sets an amount and an
interval; whenever a checkpoint of the schedule is due, the program asks a liquidity aggregator to
swap that amount. The owner may add tokens, and may close the account and take out what is left,
less a fee of half a percent.

- `src/` is the library, verified with Verus. It decides everything and performs nothing: each
  instruction takes the accounts it is about, as plain values, and returns the calls of other
  programs to be made.
  - `funding.rs`, `swap.rs`, `closing.rs`: the instructions `create` and `add_funds`,
    `wake_and_swap`, and `close`.
  - `entry.rs`: the same instructions with the conditions on their accounts checked first, for
    callers that cannot vouch for them.
  - `schedule.rs`: which checkpoint is due at a given time.
  - `accounts.rs`, `state.rs`: the accounts of each instruction, the conditions on them, and the
    state of a recurring swap with its invariant.
  - `cpi.rs`, `token.rs`: the calls of other programs, and the balances of token accounts.
  - `laws.rs`, `history.rs`: what holds of the program as a whole.
- `app/` is the on-chain program around the library. It reads the accounts and the clock, and makes
  the calls. The aggregator's own crate, `hla`, has to be added to build it.
- `tests/` runs the library on concrete values.
