# shitcoin_arena

A token market on linear bonding curves, for the Solana runtime.

- `src/` is the verified library: the curve's pricing (`curve`), the
  decisions of each instruction as a new curve state plus the list of steps the
  runtime is to carry out (`instructions`), the program's errors and its
  migration event (`error`), and the admin key and admin check (`keys`).
- `app/` is the on-chain program around it: account validation, the calls
  into the system and token programs, lamport edits, events and the rent
  sysvar. It hands the library plain values and carries out the steps the
  library answers with.
- `tests/` runs the library on concrete values.
