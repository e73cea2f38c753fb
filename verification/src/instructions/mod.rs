//! The instructions' logic: checks, arithmetic and state changes, on plain
//! values. Transfers, mints, burns and event emission are left to the caller.

pub mod accounts;
pub mod price;
pub mod fees;
pub mod deposit_sol;
pub mod withdraw_sol;
pub mod initialize;
pub mod fund_vault;
pub mod pause;
pub mod transfer_authority;
pub mod create_agent_vault;
pub mod create_group_config;
pub mod update_group_feeds;
pub mod close_bet;
pub mod admin_reset_vault;
pub mod set_referrer;
pub mod admin_set_referrer;
pub mod update_config;
pub mod create_lp_metadata;
pub mod update_lp_metadata;
pub mod draw_raffle;
pub mod settle_bet;
pub mod expire_stale_bet;
pub mod propose_bet;
