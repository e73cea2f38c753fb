//! Closing a settled bet to reclaim its rent.

use vstd::prelude::*;
use crate::error::RogueTraderError;
use crate::events::BetClosed;
use crate::pubkey::Pubkey;
use crate::state::bet::Bet;
use crate::state::clearing_house::ClearingHouseState;

verus! {

/// A bet may be closed once settled, with its rent going to the authority or
/// the settler (who signs).
pub fn handler(ch: &ClearingHouseState, bet: &Bet, rent_receiver: &Pubkey, now: i64) -> (r: Result<
    BetClosed,
    RogueTraderError,
>)
    ensures
        !bet.settled ==> r == Err::<BetClosed, RogueTraderError>(RogueTraderError::BetNotSettled),
        bet.settled && rent_receiver@ != ch.authority@ && rent_receiver@ != ch.settler@ ==> r
            == Err::<BetClosed, RogueTraderError>(RogueTraderError::Unauthorized),
        bet.settled && (rent_receiver@ == ch.authority@ || rent_receiver@ == ch.settler@) ==> r
            == Ok::<BetClosed, RogueTraderError>(
            BetClosed { bet_id: bet.bet_id, rent_returned_to: *rent_receiver, timestamp: now },
        ),
{
    if !bet.settled {
        return Err(RogueTraderError::BetNotSettled);
    }
    if !rent_receiver.key_eq(&ch.authority) && !rent_receiver.key_eq(&ch.settler) {
        return Err(RogueTraderError::Unauthorized);
    }
    Ok(BetClosed { bet_id: bet.bet_id, rent_returned_to: *rent_receiver, timestamp: now })
}

} // verus!
