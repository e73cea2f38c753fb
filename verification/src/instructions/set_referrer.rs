//! A player naming its referrer; the referrer's own referrer becomes the
//! player's tier-2 referrer.

use vstd::prelude::*;
use crate::error::RogueTraderError;
use crate::events::ReferrerSet;
use crate::pubkey::{Pubkey, zero_key};
use crate::state::player_state::PlayerState;
use crate::state::referral_state::ReferralState;

verus! {

/// Set the signing player's referrer, once; not the player itself and not
/// the zero key.
pub fn handler(
    player_state: &mut PlayerState,
    referrer_player_state: &PlayerState,
    referral_state: &mut ReferralState,
    player: &Pubkey,
    referrer: &Pubkey,
    now: i64,
) -> (r: Result<ReferrerSet, RogueTraderError>)
    requires
        referrer@ != player@ && old(player_state).referrer@ == zero_key() && referrer@ != zero_key()
            ==> old(referral_state).referral_count < u64::MAX,
    ensures
        r is Err ==> *final(player_state) == *old(player_state) && *final(referral_state)
            == *old(referral_state),
        referrer@ == player@ ==> r == Err::<ReferrerSet, RogueTraderError>(
            RogueTraderError::SelfReferral,
        ),
        referrer@ != player@ && old(player_state).referrer@ != zero_key() ==> r == Err::<
            ReferrerSet,
            RogueTraderError,
        >(RogueTraderError::ReferrerAlreadySet),
        referrer@ != player@ && old(player_state).referrer@ == zero_key() && referrer@
            == zero_key() ==> r == Err::<ReferrerSet, RogueTraderError>(
            RogueTraderError::InvalidReferrer,
        ),
        referrer@ != player@ && old(player_state).referrer@ == zero_key() && referrer@
            != zero_key() ==> {
            let tier2 = if referrer_player_state.referrer@ != zero_key() {
                referrer_player_state.referrer
            } else {
                old(player_state).tier2_referrer
            };
            &&& *final(player_state) == (PlayerState {
                referrer: *referrer,
                tier2_referrer: tier2,
                ..*old(player_state)
            })
            &&& *final(referral_state) == (ReferralState {
                referral_count: (old(referral_state).referral_count + 1) as u64,
                ..*old(referral_state)
            })
            &&& r == Ok::<ReferrerSet, RogueTraderError>(
                ReferrerSet {
                    player: *player,
                    referrer: *referrer,
                    tier2_referrer: tier2,
                    timestamp: now,
                },
            )
        },
{
    if referrer.key_eq(player) {
        return Err(RogueTraderError::SelfReferral);
    }
    if !player_state.referrer.is_default() {
        return Err(RogueTraderError::ReferrerAlreadySet);
    }
    if referrer.is_default() {
        return Err(RogueTraderError::InvalidReferrer);
    }
    player_state.referrer = *referrer;
    if !referrer_player_state.referrer.is_default() {
        player_state.tier2_referrer = referrer_player_state.referrer;
    }
    referral_state.referral_count = referral_state.referral_count + 1;
    Ok(
        ReferrerSet {
            player: *player,
            referrer: *referrer,
            tier2_referrer: player_state.tier2_referrer,
            timestamp: now,
        },
    )
}

} // verus!
