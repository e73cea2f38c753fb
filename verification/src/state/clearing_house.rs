//! Global configuration and totals of the clearing house.

use vstd::prelude::*;
use crate::pubkey::Pubkey;

verus! {

#[derive(Clone, Copy, Debug, PartialEq, Eq)]
pub struct ClearingHouseState {
    // Authority & roles
    pub authority: Pubkey,
    pub settler: Pubkey,
    // Fee configuration (bps)
    pub deposit_fee_bps: u16,
    pub withdrawal_fee_bps: u16,
    // Fee split
    pub referral_bps: u16,
    pub tier2_referral_bps: u16,
    pub bonus_bps: u16,
    pub nft_reward_bps: u16,
    pub platform_fee_bps: u16,
    // Fee recipient wallets
    pub platform_wallet: Pubkey,
    pub bonus_wallet: Pubkey,
    pub nft_rewarder: Pubkey,
    // Global state
    pub paused: bool,
    pub next_bet_id: u64,
    pub total_bets_proposed: u64,
    pub total_bets_settled: u64,
    pub total_volume: u64,
    pub total_deposit_fees: u64,
    pub total_withdrawal_fees: u64,
    pub total_referral_paid: u64,
    pub total_nft_rewards_paid: u64,
    pub total_platform_fees_paid: u64,
    pub total_bonus_paid: u64,
    // Master vault
    pub vault: Pubkey,
    pub vault_bump: u8,
    // Lookup table for counterparty batching
    pub vault_lookup_table: Pubkey,
    pub bump: u8,
    // Odds clamp (bps)
    pub min_odds_bps: u16,
    pub max_odds_bps: u16,
    // Rolling window size for odds (0 = default 10)
    pub odds_window_size: u8,
    // Winners get better odds when set
    pub invert_odds: bool,
    // Part of the fee that stays in the vault for LP holders
    pub spread_to_lp_bps: u16,
    // Max counterparty exposure per bet (bps of its free capital, 0 = no cap)
    pub max_cp_exposure_bps: u16,
    // Stale bet expiry buffer in seconds (0 = default 120)
    pub stale_bet_buffer_secs: i64,
    // Granular pause flags
    pub deposits_paused: bool,
    pub withdrawals_paused: bool,
    pub betting_paused: bool,
    // Two-step authority transfer; zero key = none pending
    pub pending_authority: Pubkey,
    pub _reserved: [u8; 74],
}

/// Settlement window after expiry used when none is configured.
pub const DEFAULT_SETTLE_BUFFER: i64 = 120;

/// The configured stale-bet buffer, or 120 seconds when it is not positive.
pub open spec fn spec_settle_buffer(ch: ClearingHouseState) -> i64 {
    if ch.stale_bet_buffer_secs > 0 {
        ch.stale_bet_buffer_secs
    } else {
        DEFAULT_SETTLE_BUFFER
    }
}

impl ClearingHouseState {
    /// The stale-bet buffer in force.
    pub fn settle_buffer(&self) -> (r: i64)
        ensures
            r == spec_settle_buffer(*self),
    {
        if self.stale_bet_buffer_secs > 0 {
            self.stale_bet_buffer_secs
        } else {
            DEFAULT_SETTLE_BUFFER
        }
    }
}

} // verus!
