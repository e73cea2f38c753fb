//! Two-step transfer of the clearing house authority.

use vstd::prelude::*;
use crate::error::RogueTraderError;
use crate::events::AuthorityTransferred;
use crate::pubkey::{Pubkey, zero_key};
use crate::state::clearing_house::ClearingHouseState;

verus! {

/// The state after the current authority names `new_authority`.
pub open spec fn transfer_proposed(ch: ClearingHouseState, new_authority: Pubkey) -> ClearingHouseState {
    ClearingHouseState { pending_authority: new_authority, ..ch }
}

/// Why `signer` cannot accept the transfer: it is not the pending authority,
/// or no transfer is pending; none when it can.
pub open spec fn accept_error(ch: ClearingHouseState, signer: Pubkey) -> Option<RogueTraderError> {
    if signer@ != ch.pending_authority@ {
        Some(RogueTraderError::InvalidPendingAuthority)
    } else if ch.pending_authority@ == zero_key() {
        Some(RogueTraderError::NoPendingTransfer)
    } else {
        None
    }
}

/// `ch2` is `ch` after the pending authority took over: it is the authority
/// and the pending slot is empty; nothing else changed.
pub open spec fn transfer_accepted(ch: ClearingHouseState, ch2: ClearingHouseState) -> bool {
    &&& ch2.authority == ch.pending_authority
    &&& ch2.pending_authority@ == zero_key()
    &&& ch2 == ClearingHouseState {
        authority: ch2.authority,
        pending_authority: ch2.pending_authority,
        ..ch
    }
}

/// Step 1: the current authority names the new one.
pub fn propose_handler(ch: &mut ClearingHouseState, new_authority: &Pubkey)
    ensures
        *final(ch) == transfer_proposed(*old(ch), *new_authority),
{
    ch.pending_authority = *new_authority;
}

/// Step 2: the named authority, signing, takes over; the pending slot is
/// cleared.
pub fn accept_handler(ch: &mut ClearingHouseState, new_authority: &Pubkey, now: i64) -> (r: Result<
    AuthorityTransferred,
    RogueTraderError,
>)
    ensures
        match accept_error(*old(ch), *new_authority) {
            Some(e) => r == Err::<AuthorityTransferred, RogueTraderError>(e) && *final(ch)
                == *old(ch),
            None => {
                &&& transfer_accepted(*old(ch), *final(ch))
                &&& r == Ok::<AuthorityTransferred, RogueTraderError>(
                    AuthorityTransferred {
                        old_authority: old(ch).authority,
                        new_authority: old(ch).pending_authority,
                        timestamp: now,
                    },
                )
            },
        },
{
    if !new_authority.key_eq(&ch.pending_authority) {
        return Err(RogueTraderError::InvalidPendingAuthority);
    }
    if ch.pending_authority.is_default() {
        return Err(RogueTraderError::NoPendingTransfer);
    }
    let old = ch.authority;
    ch.authority = ch.pending_authority;
    ch.pending_authority = Pubkey::default();
    Ok(AuthorityTransferred { old_authority: old, new_authority: ch.authority, timestamp: now })
}

} // verus!
