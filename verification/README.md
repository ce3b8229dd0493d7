# blueshift_anchor

The verified core of two Solana (Anchor) programs.

* **Escrow** — a maker offers tokens of one mint for an amount of another; the
  offer is recorded in an escrow account and the offered tokens are parked in a
  vault. A taker pays the maker, receives the vault's tokens, and the vault is
  closed.
* **Flash loan** — a borrower takes tokens from the protocol's pool in the
  first instruction of a transaction. The borrow checks, through the
  instructions sysvar, that the last instruction is a repay of this program
  naming the same token accounts; it does not check amounts. The repay charges
  the amount it reads at bytes 8 to 16 of the first instruction's data, plus
  500 basis points. A borrow's own data is its one-byte discriminator and the
  amount, 9 bytes, so on it the repay does not succeed.

Layout:

* `src/` — the library, verified with Verus. Each program has its account
  state (with its byte encoding and the round-trip proof), its errors, and one
  module per instruction that decides the outcome and the token-program calls
  to make. `src/sysvar.rs` reads instructions out of the sysvar data through
  `anchor_lang::solana_program`; `src/cpi.rs` describes the token calls.
* `app/` — the Anchor program around it: account validation, the token-program
  calls the library asks for, and account storage through the library's
  encoders. One crate hosts one Anchor entrypoint, the escrow's; the flash
  loan's handlers are there without one.
* `tests/` — tests of the library, with real sysvar data.
