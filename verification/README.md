# escrow

A token-swap escrow for the Solana runtime. A maker deposits tokens of mint A in a vault
owned by an escrow address and asks for tokens of mint B in return; a taker completes the
swap (`take`), or the maker takes the deposit back (`cancel`) once the escrow is at least
`CANCEL_DELAY_SECONDS` old.

- `src/` is the verified library. From plain account values it decides whether an
  instruction is accepted (the account constraints, the time lock) and returns the calls it
  makes, in order. `laws.rs` proves what every settlement does: the time lock only opens, a
  refused cancel moves nothing, an accepted cancel returns the whole vault to the maker, an
  accepted take pays the escrow's own maker and moves exactly the two agreed amounts, and an
  accepted cancel, where the escrow records the maker who signs, signs for the vault with
  seeds that derive the escrow's own address.
- `app/` is the program on chain: it reads the accounts and the clock, calls the library, and
  performs the returned calls through the token and associated-token programs.
- `tests/` run the library on concrete escrows, with the real address derivations.
