# solana_programs

Verified logic of six small Solana programs, written in Verus.

- `src/sol_vault.rs` – a per-user SOL vault (deposit into an empty vault, withdraw everything).
- `src/profile.rs` – a profile account whose status its owner can update, within the account's space.
- `src/counter.rs` – a counter on the bare runtime: instruction decoding, account checks, the
  derived address and the Borsh layout of the stored counter.
- `src/transfer_fee.rs` – Token-2022 mints with a transfer fee: the mint layout and the fee charged
  on a transfer.
- `src/staking.rs` – a staking vault with a per-token reward index, with proofs that the index never
  falls, that users end every instruction settled, and that the vault's total is the sum of stakes.
- `src/escrow.rs` – a token swap escrow whose settled states accept nothing further.

The library decides; the runtime acts. Each instruction takes plain values (keys as 32-byte
arrays, balances, the clock) and returns the new account state together with the transfers to
carry out. `app/` holds the on-chain shells that read accounts, call the library and perform
those transfers.

`tests/` runs the library on concrete values.
