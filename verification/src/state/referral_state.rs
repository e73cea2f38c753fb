//! Per-referrer earnings record.

use vstd::prelude::*;
use crate::pubkey::Pubkey;

verus! {

#[derive(Clone, Copy, Debug, PartialEq, Eq)]
pub struct ReferralState {
    pub referrer: Pubkey,
    pub total_earnings: u64,
    pub referral_count: u64,
    pub bump: u8,
    pub _reserved: [u8; 64],
}

} // verus!
