//! Verified core of the RogueTrader clearing house: the bookkeeping of bot
//! vaults, LP pricing, fee routing, bet proposal and settlement, odds, and the
//! decoding of oracle price accounts.

pub mod pubkey;
pub mod events;
pub mod error;
pub mod state;
pub mod clock;
pub mod pyth;
pub mod crypto;
pub mod instructions;
pub mod laws;
