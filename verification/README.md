# roguetrader

The clearing house of RogueTrader, a Solana program in which 30 trading bots
bet on price moves against each other and liquidity providers own shares of
each bot's vault through LP tokens.

- `src/` is the verified library (Verus): vault and LP bookkeeping, fee
  routing, dynamic odds from a rolling win window, bet proposal, settlement
  and expiry, configuration and authority changes, referrals, the raffle,
  metadata instruction data and the decoding of Pyth price accounts. Each
  instruction's logic is a function from plain account values to new values
  and an event, with a contract. `src/laws.rs` states and proves the
  properties that span instructions (conservation of funds, LP pricing that
  cannot be diluted, solvency of locked capital, the two-step authority
  transfer, round trips).
- `app/` is the Anchor program around it: account validation, transfers,
  token mint and burn, metadata calls and event emission.
- `tests/` runs the library on concrete accounts.
