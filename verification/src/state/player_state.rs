//! Per-player deposit and referral record.

use vstd::prelude::*;
use crate::pubkey::Pubkey;

verus! {

#[derive(Clone, Copy, Debug, PartialEq, Eq)]
pub struct PlayerState {
    pub wallet: Pubkey,
    /// Zero key when none.
    pub referrer: Pubkey,
    /// Zero key when none.
    pub tier2_referrer: Pubkey,
    pub total_deposited: u64,
    pub total_withdrawn: u64,
    pub deposit_count: u64,
    pub withdrawal_count: u64,
    pub bump: u8,
    pub _reserved: [u8; 64],
}

} // verus!
