//! Creating the clearing house with its fee configuration.

use vstd::prelude::*;
use crate::error::RogueTraderError;
use crate::events::ClearingHouseInitialized;
use crate::pubkey::{Pubkey, zero_key};
use crate::state::clearing_house::ClearingHouseState;

verus! {

/// Largest deposit or withdrawal fee, in bps (10%).
pub const MAX_FEE_BPS: u16 = 1_000;

/// Sum of the five wallet shares of the fee, in bps.
pub open spec fn split_sum(referral: u16, tier2: u16, bonus: u16, nft: u16, platform: u16) -> int {
    referral + tier2 + bonus + nft + platform
}

/// Sum of the five wallet shares, or `MathOverflow` when it exceeds 16 bits.
pub fn checked_split_sum(referral: u16, tier2: u16, bonus: u16, nft: u16, platform: u16) -> (r:
    Result<u16, RogueTraderError>)
    ensures
        split_sum(referral, tier2, bonus, nft, platform) > u16::MAX ==> r
            == Err::<u16, RogueTraderError>(RogueTraderError::MathOverflow),
        split_sum(referral, tier2, bonus, nft, platform) <= u16::MAX ==> r == Ok::<
            u16,
            RogueTraderError,
        >(split_sum(referral, tier2, bonus, nft, platform) as u16),
{
    let a = match referral.checked_add(tier2) {
        Some(x) => x,
        None => {
            return Err(RogueTraderError::MathOverflow);
        },
    };
    let b = match a.checked_add(bonus) {
        Some(x) => x,
        None => {
            return Err(RogueTraderError::MathOverflow);
        },
    };
    let c = match b.checked_add(nft) {
        Some(x) => x,
        None => {
            return Err(RogueTraderError::MathOverflow);
        },
    };
    match c.checked_add(platform) {
        Some(x) => Ok(x),
        None => Err(RogueTraderError::MathOverflow),
    }
}

/// The fee configuration a new clearing house is created with.
#[derive(Clone, Copy, Debug, PartialEq, Eq, Structural)]
pub struct FeeConfig {
    pub deposit_fee_bps: u16,
    pub withdrawal_fee_bps: u16,
    pub referral_bps: u16,
    pub tier2_referral_bps: u16,
    pub bonus_bps: u16,
    pub nft_reward_bps: u16,
    pub platform_fee_bps: u16,
    pub spread_to_lp_bps: u16,
}

/// The first check the fee configuration fails: fees of at most 10%, the LP
/// part at most the deposit fee, and the wallet shares summing to the
/// deposit fee less the LP part.
pub open spec fn initialize_error(f: FeeConfig) -> Option<RogueTraderError> {
    let sum = split_sum(f.referral_bps, f.tier2_referral_bps, f.bonus_bps, f.nft_reward_bps, f.platform_fee_bps);
    if f.deposit_fee_bps > MAX_FEE_BPS || f.withdrawal_fee_bps > MAX_FEE_BPS
        || f.spread_to_lp_bps > f.deposit_fee_bps {
        Some(RogueTraderError::InvalidConfig)
    } else if sum > u16::MAX {
        Some(RogueTraderError::MathOverflow)
    } else if sum != f.deposit_fee_bps - f.spread_to_lp_bps {
        Some(RogueTraderError::InvalidFeeSplit)
    } else if sum != f.withdrawal_fee_bps.saturating_sub(f.spread_to_lp_bps) {
        Some(RogueTraderError::InvalidWithdrawalFeeSplit)
    } else {
        None
    }
}

/// The new clearing house: the given roles, wallets and fees, all totals
/// zero, odds clamped to 45%..55% over a window of 10, a 1% counterparty
/// exposure cap, a 120 s stale-bet buffer, nothing paused, no pending
/// authority.
pub open spec fn initialized_state(
    ch: ClearingHouseState,
    f: FeeConfig,
    authority: Pubkey,
    settler: Pubkey,
    platform_wallet: Pubkey,
    bonus_wallet: Pubkey,
    nft_rewarder: Pubkey,
    vault: Pubkey,
    vault_bump: u8,
    bump: u8,
) -> bool {
    &&& ch.authority == authority
    &&& ch.settler == settler
    &&& ch.deposit_fee_bps == f.deposit_fee_bps
    &&& ch.withdrawal_fee_bps == f.withdrawal_fee_bps
    &&& ch.referral_bps == f.referral_bps
    &&& ch.tier2_referral_bps == f.tier2_referral_bps
    &&& ch.bonus_bps == f.bonus_bps
    &&& ch.nft_reward_bps == f.nft_reward_bps
    &&& ch.platform_fee_bps == f.platform_fee_bps
    &&& ch.platform_wallet == platform_wallet
    &&& ch.bonus_wallet == bonus_wallet
    &&& ch.nft_rewarder == nft_rewarder
    &&& !ch.paused
    &&& ch.next_bet_id == 0
    &&& ch.total_bets_proposed == 0
    &&& ch.total_bets_settled == 0
    &&& ch.total_volume == 0
    &&& ch.total_deposit_fees == 0
    &&& ch.total_withdrawal_fees == 0
    &&& ch.total_referral_paid == 0
    &&& ch.total_nft_rewards_paid == 0
    &&& ch.total_platform_fees_paid == 0
    &&& ch.total_bonus_paid == 0
    &&& ch.vault == vault
    &&& ch.vault_bump == vault_bump
    &&& ch.vault_lookup_table@ == zero_key()
    &&& ch.bump == bump
    &&& ch.min_odds_bps == 4_500
    &&& ch.max_odds_bps == 5_500
    &&& ch.odds_window_size == 10
    &&& !ch.invert_odds
    &&& ch.spread_to_lp_bps == f.spread_to_lp_bps
    &&& ch.max_cp_exposure_bps == 100
    &&& ch.stale_bet_buffer_secs == 120
    &&& !ch.deposits_paused
    &&& !ch.withdrawals_paused
    &&& !ch.betting_paused
    &&& ch.pending_authority@ == zero_key()
    &&& ch._reserved@ == Seq::new(74, |i: int| 0u8)
}

/// Validate the fee configuration and create the clearing house state.
pub fn handler(
    fees: &FeeConfig,
    authority: &Pubkey,
    settler: &Pubkey,
    platform_wallet: &Pubkey,
    bonus_wallet: &Pubkey,
    nft_rewarder: &Pubkey,
    vault: &Pubkey,
    vault_bump: u8,
    bump: u8,
    now: i64,
) -> (r: Result<(ClearingHouseState, ClearingHouseInitialized), RogueTraderError>)
    ensures
        match initialize_error(*fees) {
            Some(e) => r == Err::<(ClearingHouseState, ClearingHouseInitialized), RogueTraderError>(e),
            None => r matches Ok(res) && initialized_state(
                res.0,
                *fees,
                *authority,
                *settler,
                *platform_wallet,
                *bonus_wallet,
                *nft_rewarder,
                *vault,
                vault_bump,
                bump,
            ) && res.1 == (ClearingHouseInitialized {
                authority: *authority,
                settler: *settler,
                vault: *vault,
                deposit_fee_bps: fees.deposit_fee_bps,
                withdrawal_fee_bps: fees.withdrawal_fee_bps,
                timestamp: now,
            }),
        },
{
    if fees.deposit_fee_bps > MAX_FEE_BPS {
        return Err(RogueTraderError::InvalidConfig);
    }
    if fees.withdrawal_fee_bps > MAX_FEE_BPS {
        return Err(RogueTraderError::InvalidConfig);
    }
    if fees.spread_to_lp_bps > fees.deposit_fee_bps {
        return Err(RogueTraderError::InvalidConfig);
    }
    let sum = checked_split_sum(
        fees.referral_bps,
        fees.tier2_referral_bps,
        fees.bonus_bps,
        fees.nft_reward_bps,
        fees.platform_fee_bps,
    )?;
    let expected = fees.deposit_fee_bps.saturating_sub(fees.spread_to_lp_bps);
    if sum != expected {
        return Err(RogueTraderError::InvalidFeeSplit);
    }
    if sum != fees.withdrawal_fee_bps.saturating_sub(fees.spread_to_lp_bps) {
        return Err(RogueTraderError::InvalidWithdrawalFeeSplit);
    }
    let ch = ClearingHouseState {
        authority: *authority,
        settler: *settler,
        deposit_fee_bps: fees.deposit_fee_bps,
        withdrawal_fee_bps: fees.withdrawal_fee_bps,
        referral_bps: fees.referral_bps,
        tier2_referral_bps: fees.tier2_referral_bps,
        bonus_bps: fees.bonus_bps,
        nft_reward_bps: fees.nft_reward_bps,
        platform_fee_bps: fees.platform_fee_bps,
        platform_wallet: *platform_wallet,
        bonus_wallet: *bonus_wallet,
        nft_rewarder: *nft_rewarder,
        paused: false,
        next_bet_id: 0,
        total_bets_proposed: 0,
        total_bets_settled: 0,
        total_volume: 0,
        total_deposit_fees: 0,
        total_withdrawal_fees: 0,
        total_referral_paid: 0,
        total_nft_rewards_paid: 0,
        total_platform_fees_paid: 0,
        total_bonus_paid: 0,
        vault: *vault,
        vault_bump,
        vault_lookup_table: Pubkey::default(),
        bump,
        min_odds_bps: 4_500,
        max_odds_bps: 5_500,
        odds_window_size: 10,
        invert_odds: false,
        spread_to_lp_bps: fees.spread_to_lp_bps,
        max_cp_exposure_bps: 100,
        stale_bet_buffer_secs: 120,
        deposits_paused: false,
        withdrawals_paused: false,
        betting_paused: false,
        pending_authority: Pubkey::default(),
        _reserved: [0u8; 74],
    };
    assert(ch._reserved@ =~= Seq::new(74, |i: int| 0u8));
    let event = ClearingHouseInitialized {
        authority: *authority,
        settler: *settler,
        vault: *vault,
        deposit_fee_bps: fees.deposit_fee_bps,
        withdrawal_fee_bps: fees.withdrawal_fee_bps,
        timestamp: now,
    };
    Ok((ch, event))
}

} // verus!
