//! The settler setting a player's referrer on its behalf.

use vstd::prelude::*;
use crate::error::RogueTraderError;
use crate::events::ReferrerSet;
use crate::pubkey::{Pubkey, zero_key};
use crate::state::clearing_house::ClearingHouseState;
use crate::state::player_state::PlayerState;
use crate::state::referral_state::ReferralState;

verus! {

/// The referrer recorded in the raw data of the referrer's player state
/// account, when that account is the program's and long enough; else none.
pub open spec fn raw_referrer(data: Seq<u8>, owner: Seq<u8>, program_id: Seq<u8>) -> Option<Seq<u8>> {
    if data.len() > 40 && owner == program_id && data.len() >= 72 {
        Some(data.subrange(40, 72))
    } else {
        None
    }
}

fn read_referrer(data: &Vec<u8>) -> (r: Pubkey)
    requires
        data@.len() >= 72,
    ensures
        r@ == data@.subrange(40, 72),
{
    let mut bytes = [0u8; 32];
    let mut i: usize = 0;
    while i < 32
        invariant
            i <= 32,
            data@.len() >= 72,
            bytes@.len() == 32,
            forall|j: int| 0 <= j < i ==> bytes@[j] == data@[40 + j],
        decreases 32 - i,
    {
        bytes[i] = data[40 + i];
        i = i + 1;
    }
    assert(bytes@ =~= data@.subrange(40, 72));
    Pubkey { bytes }
}

/// Set `player_key`'s referrer as the settler: the player's state and the
/// referrer's referral state are created when new (zero keys), the referrer
/// may be set once, and the tier-2 referrer is read from the referrer's own
/// player state account when present.
pub fn handler(
    ch: &ClearingHouseState,
    player_state: &mut PlayerState,
    referral_state: &mut ReferralState,
    settler: &Pubkey,
    player_key: &Pubkey,
    referrer_key: &Pubkey,
    referrer_ps_data: &Vec<u8>,
    referrer_ps_owner: &Pubkey,
    program_id: &Pubkey,
    player_bump: u8,
    referral_bump: u8,
    now: i64,
) -> (r: Result<ReferrerSet, RogueTraderError>)
    requires
        settler@ == ch.settler@ && player_key@ != referrer_key@ && referrer_key@ != zero_key()
            && old(player_state).referrer@ == zero_key() ==> old(referral_state).referral_count
            < u64::MAX,
    ensures
        r is Err ==> *final(player_state) == *old(player_state) && *final(referral_state)
            == *old(referral_state),
        ({
            let p0 = *old(player_state);
            let fresh = p0.wallet@ == zero_key();
            let p1 = if fresh {
                PlayerState { wallet: *player_key, bump: player_bump, ..p0 }
            } else {
                p0
            };
            let raw = raw_referrer(referrer_ps_data@, referrer_ps_owner@, program_id@);
            let t2_set = raw is Some && raw->0 != zero_key();
            let rs0 = *old(referral_state);
            let new_rs = rs0.referrer@ == zero_key();
            if settler@ != ch.settler@ {
                r == Err::<ReferrerSet, RogueTraderError>(RogueTraderError::UnauthorizedSettler)
            } else if player_key@ == referrer_key@ {
                r == Err::<ReferrerSet, RogueTraderError>(RogueTraderError::SelfReferral)
            } else if referrer_key@ == zero_key() {
                r == Err::<ReferrerSet, RogueTraderError>(RogueTraderError::InvalidReferrer)
            } else if p0.referrer@ != zero_key() {
                r == Err::<ReferrerSet, RogueTraderError>(RogueTraderError::ReferrerAlreadySet)
            } else {
                &&& final(player_state).wallet == p1.wallet
                &&& final(player_state).bump == p1.bump
                &&& final(player_state).referrer == *referrer_key
                &&& (t2_set ==> final(player_state).tier2_referrer@ == raw->0)
                &&& (!t2_set ==> final(player_state).tier2_referrer == p0.tier2_referrer)
                &&& *final(player_state) == (PlayerState {
                    referrer: *referrer_key,
                    tier2_referrer: final(player_state).tier2_referrer,
                    ..p1
                })
                &&& *final(referral_state) == (ReferralState {
                    referrer: if new_rs { *referrer_key } else { rs0.referrer },
                    bump: if new_rs { referral_bump } else { rs0.bump },
                    referral_count: (rs0.referral_count + 1) as u64,
                    ..rs0
                })
                &&& r == Ok::<ReferrerSet, RogueTraderError>(
                    ReferrerSet {
                        player: *player_key,
                        referrer: *referrer_key,
                        tier2_referrer: final(player_state).tier2_referrer,
                        timestamp: now,
                    },
                )
            }
        }),
{
    if !settler.key_eq(&ch.settler) {
        return Err(RogueTraderError::UnauthorizedSettler);
    }
    if player_key.key_eq(referrer_key) {
        return Err(RogueTraderError::SelfReferral);
    }
    if referrer_key.is_default() {
        return Err(RogueTraderError::InvalidReferrer);
    }
    if !player_state.referrer.is_default() {
        return Err(RogueTraderError::ReferrerAlreadySet);
    }
    if player_state.wallet.is_default() {
        player_state.wallet = *player_key;
        player_state.bump = player_bump;
    }
    player_state.referrer = *referrer_key;
    if referrer_ps_data.len() > 40 && referrer_ps_owner.key_eq(program_id) {
        if referrer_ps_data.len() >= 72 {
            let referrer_of_referrer = read_referrer(referrer_ps_data);
            if !referrer_of_referrer.is_default() {
                player_state.tier2_referrer = referrer_of_referrer;
            }
        }
    }
    if referral_state.referrer.is_default() {
        referral_state.referrer = *referrer_key;
        referral_state.bump = referral_bump;
    }
    referral_state.referral_count = referral_state.referral_count + 1;
    Ok(
        ReferrerSet {
            player: *player_key,
            referrer: *referrer_key,
            tier2_referrer: player_state.tier2_referrer,
            timestamp: now,
        },
    )
}

} // verus!
