# vault

A vault that pools two tokens, keeps them in a concentrated-liquidity position,
and prices its shares from the pool that the position lives in.

- `src/` is the library, verified with Verus. It holds the share, price, tick
  and liquidity formulas, the oracle guard, and the decisions of every
  instruction. An instruction that calls another program is split at the call:
  each part takes what the accounts held at that point, and says what to do next
  or how the vault changes.
- `src/laws.rs`, and the functions whose names start with `law_` elsewhere, state
  what holds of the library as a whole: that deposits and redemptions dilute
  nobody, that the protocol's fees stay covered, that no delegate is left behind.
- `app/` is the on-chain program around it: accounts, token transfers, and the
  calls of the pool program.
- `tests/` runs the library on concrete values.

Two items are trusted rather than proved, both in `src/pubkey.rs`:
`find_program_address`, which derives an address with `anchor_lang`, and
`program_address`, the name under which contracts speak of that address.
