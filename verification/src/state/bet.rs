//! A bet between a proposer bot and its counterparties.

use vstd::prelude::*;
use crate::pubkey::Pubkey;

verus! {

/// One counterparty's share of a bet.
#[derive(Clone, Copy, Debug, PartialEq, Eq, Structural)]
pub struct CounterpartyPosition {
    pub bot_id: u8,
    pub stake: u64,
}

impl Default for CounterpartyPosition {
    fn default() -> (r: Self)
        ensures
            r.bot_id == 0,
            r.stake == 0,
    {
        CounterpartyPosition { bot_id: 0, stake: 0 }
    }
}

/// Which way the proposer bets the price moves.
#[derive(Clone, Copy, Debug, PartialEq, Eq, Structural)]
pub enum Direction {
    Long,
    Short,
}

impl Default for Direction {
    fn default() -> (r: Self)
        ensures
            r == Direction::Long,
    {
        Direction::Long
    }
}

/// Bet outcome: pending.
pub const OUTCOME_PENDING: u8 = 0;
/// Bet outcome: the proposer won.
pub const OUTCOME_PROPOSER_WON: u8 = 1;
/// Bet outcome: the proposer lost.
pub const OUTCOME_PROPOSER_LOST: u8 = 2;
/// Bet outcome: the price did not move.
pub const OUTCOME_TIE: u8 = 3;

/// Number of counterparty slots of a bet.
pub const MAX_COUNTERPARTIES: usize = 29;

/// Stale bet buffer in seconds.
pub const STALE_BET_BUFFER: i64 = 300;

#[derive(Clone, Copy, Debug, PartialEq, Eq)]
pub struct Bet {
    pub bet_id: u64,
    pub proposer_bot: u8,
    pub pyth_feed: Pubkey,
    pub direction: Direction,
    pub duration_seconds: i64,
    // Stakes
    pub proposer_stake: u64,
    pub counterparty_pool: u64,
    pub win_rate_bps_at_open: u16,
    // Counterparty breakdown; `cp_count` slots are in use
    pub counterparties: [CounterpartyPosition; 29],
    pub cp_count: u8,
    // Price data
    pub entry_price: i64,
    pub entry_conf: u64,
    pub entry_expo: i32,
    pub entry_timestamp: i64,
    pub expiry_timestamp: i64,
    // Settlement
    pub settled: bool,
    pub outcome: u8,
    pub exit_price: i64,
    pub exit_conf: u64,
    pub settle_timestamp: i64,
    pub bump: u8,
    pub _reserved: [u8; 32],
}

/// Outcome of a bet from its direction and its entry and exit prices.
pub open spec fn spec_outcome(direction: Direction, entry: i64, exit: i64) -> u8 {
    match direction {
        Direction::Long => if exit > entry {
            OUTCOME_PROPOSER_WON
        } else if exit < entry {
            OUTCOME_PROPOSER_LOST
        } else {
            OUTCOME_TIE
        },
        Direction::Short => if exit < entry {
            OUTCOME_PROPOSER_WON
        } else if exit > entry {
            OUTCOME_PROPOSER_LOST
        } else {
            OUTCOME_TIE
        },
    }
}

/// Outcome of a bet: a long wins when the price rose, a short when it fell,
/// and an unchanged price is a tie.
pub fn bet_outcome(direction: Direction, entry: i64, exit: i64) -> (r: u8)
    ensures
        r == spec_outcome(direction, entry, exit),
{
    match direction {
        Direction::Long => {
            if exit > entry {
                OUTCOME_PROPOSER_WON
            } else if exit < entry {
                OUTCOME_PROPOSER_LOST
            } else {
                OUTCOME_TIE
            }
        },
        Direction::Short => {
            if exit < entry {
                OUTCOME_PROPOSER_WON
            } else if exit > entry {
                OUTCOME_PROPOSER_LOST
            } else {
                OUTCOME_TIE
            }
        },
    }
}

/// The stake recorded for `bot_id` among the first `cp_count` positions of a
/// bet: that of the first position with this bot, or 0.
pub open spec fn stake_of(positions: Seq<CounterpartyPosition>, n: int, bot_id: u8) -> u64
    decreases n,
{
    if n <= 0 {
        0
    } else if positions[0].bot_id == bot_id {
        positions[0].stake
    } else {
        stake_of(positions.drop_first(), n - 1, bot_id)
    }
}

impl Bet {
    /// The stake this bet holds for counterparty `bot_id` (0 if none).
    pub fn counterparty_stake(&self, bot_id: u8) -> (r: u64)
        requires
            self.cp_count <= 29,
        ensures
            r == stake_of(self.counterparties@, self.cp_count as int, bot_id),
    {
        let n = self.cp_count as usize;
        let mut i: usize = 0;
        assert(self.counterparties@.skip(0) =~= self.counterparties@);
        while i < n
            invariant
                n == self.cp_count,
                n <= 29,
                i <= n,
                self.counterparties@.len() == 29,
                stake_of(self.counterparties@, n as int, bot_id) == stake_of(
                    self.counterparties@.skip(i as int),
                    n - i,
                    bot_id,
                ),
            decreases n - i,
        {
            let cp = self.counterparties[i];
            assert(self.counterparties@.skip(i as int)[0] == cp);
            if cp.bot_id == bot_id {
                return cp.stake;
            }
            assert(self.counterparties@.skip(i as int).drop_first() =~= self.counterparties@.skip(
                (i + 1) as int,
            ));
            i = i + 1;
        }
        0
    }
}

} // verus!
