# soda_unchained

Verified core of the Soda Unchained Solana program and of its client.

- `src/` is the library, verified with Verus: the calls each program
  instruction makes (`initialize`, `membership`, `calls`), the program's
  errors (`error`), the name records and their address seeds (`transfer`),
  derived program addresses (`pda`), sizes of address-tree accounts
  (`merkle`), the client's configuration (`config`), its messages and
  account-creation instructions (`client`), and the choice of compressed
  token accounts that pay a transfer (`selection`).
- `app/` holds the Anchor program and the client around the library: the
  account structs, the cross-program calls, files and RPC.
- `tests/` runs the library against the outside crates it calls.
