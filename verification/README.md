# lamports_vault

An SPL-token escrow with a protocol fee, the fee vault that collects that fee,
and a per-user lamport vault, as a Verus-verified library plus the on-chain
program around it.

- `src/` is the verified library. Each instruction handler under
  `src/instructions/` is a function from what the instruction reads of its
  accounts (plain values: keys, amounts, bumps, decimals, the clock) to the
  transfers it asks for (`src/cpi.rs`) and the account data it writes back.
  `src/ledger.rs` says what a list of transfers does to each balance, and
  `src/laws.rs` proves the properties that span instructions: fee bounds,
  settlement of a take, refund on cancel and conservation of tokens per mint.
  `src/fee_ledger.rs` proves the fee vault's recorded total
  (`total_collected`) over any run of takes and fee withdrawals. Taking pays
  its fee to the mint B account at the admin address, while withdrawals draw
  on the fee vault state's own token account; the bookkeeping laws speak of
  the recorded total, not of those balances.
- `app/` is the Anchor program: account validation through `#[derive(Accounts)]`,
  account (de)serialization, clock reads and the CPIs that carry out the
  transfers the library returns.
- `tests/` runs the library on concrete values.
