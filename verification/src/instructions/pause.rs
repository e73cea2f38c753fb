//! Pausing deposits, withdrawals and betting, together or separately.

use vstd::prelude::*;
use crate::events::{PauseStateChanged, ProtocolPaused};
use crate::pubkey::Pubkey;
use crate::state::clearing_house::ClearingHouseState;

verus! {

/// Set the pause flags: any granular flag given sets only the flags given;
/// with none given, `paused` sets all three. The legacy `paused` flag then
/// holds whenever any operation is paused.
pub fn handler(
    ch: &mut ClearingHouseState,
    paused: bool,
    deposits_paused: Option<bool>,
    withdrawals_paused: Option<bool>,
    betting_paused: Option<bool>,
    authority: &Pubkey,
    now: i64,
) -> (r: (ProtocolPaused, PauseStateChanged))
    ensures
        ({
            let granular = deposits_paused is Some || withdrawals_paused is Some
                || betting_paused is Some;
            let d = if granular {
                match deposits_paused {
                    Some(v) => v,
                    None => old(ch).deposits_paused,
                }
            } else {
                paused
            };
            let w = if granular {
                match withdrawals_paused {
                    Some(v) => v,
                    None => old(ch).withdrawals_paused,
                }
            } else {
                paused
            };
            let b = if granular {
                match betting_paused {
                    Some(v) => v,
                    None => old(ch).betting_paused,
                }
            } else {
                paused
            };
            &&& *final(ch) == ClearingHouseState {
                deposits_paused: d,
                withdrawals_paused: w,
                betting_paused: b,
                paused: d || w || b,
                ..*old(ch)
            }
            &&& r.0 == (ProtocolPaused { authority: *authority, paused: d || w || b, timestamp: now })
            &&& r.1 == (PauseStateChanged {
                authority: *authority,
                deposits_paused: d,
                withdrawals_paused: w,
                betting_paused: b,
                timestamp: now,
            })
        }),
{
    if deposits_paused.is_some() || withdrawals_paused.is_some() || betting_paused.is_some() {
        if let Some(v) = deposits_paused {
            ch.deposits_paused = v;
        }
        if let Some(v) = withdrawals_paused {
            ch.withdrawals_paused = v;
        }
        if let Some(v) = betting_paused {
            ch.betting_paused = v;
        }
    } else {
        ch.deposits_paused = paused;
        ch.withdrawals_paused = paused;
        ch.betting_paused = paused;
    }
    ch.paused = ch.deposits_paused || ch.withdrawals_paused || ch.betting_paused;
    (
        ProtocolPaused { authority: *authority, paused: ch.paused, timestamp: now },
        PauseStateChanged {
            authority: *authority,
            deposits_paused: ch.deposits_paused,
            withdrawals_paused: ch.withdrawals_paused,
            betting_paused: ch.betting_paused,
            timestamp: now,
        },
    )
}

} // verus!
