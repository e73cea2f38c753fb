//! A bot's vault: its share of the master vault's SOL, its LP token supply,
//! and the rolling window of bet outcomes that sets its odds.

use vstd::prelude::*;
use crate::pubkey::Pubkey;

verus! {

/// Number of slots of the outcome window.
pub const WINDOW_CAPACITY: usize = 100;

#[derive(Clone, Copy, Debug, PartialEq, Eq)]
pub struct AgentVault {
    // Identity
    pub bot_id: u8,
    pub group_id: u8,
    pub name: [u8; 16],
    // LP token
    pub lp_mint: Pubkey,
    pub lp_authority: Pubkey,
    pub lp_mint_bump: u8,
    pub lp_authority_bump: u8,
    // SOL balance tracking
    pub sol_balance: u64,
    pub locked_sol: u64,
    // LP tracking
    pub total_lp_supply: u64,
    pub total_deposited: u64,
    pub total_withdrawn: u64,
    pub deposit_count: u64,
    pub withdrawal_count: u64,
    // Authorized executor
    pub authorized_executor: Pubkey,
    // Rolling outcome window (1 = win, 0 = loss)
    pub bet_window: [u8; 100],
    pub window_head: u8,
    pub window_count: u8,
    pub wins_in_window: u8,
    // All-time stats
    pub bets_proposed: u32,
    pub bets_won: u32,
    pub bets_lost: u32,
    pub bets_tied: u32,
    // Active bet tracking
    pub active_bet_count: u8,
    pub bump: u8,
    // Subset of locked_sol that is counterparty exposure
    pub counterparty_locked_sol: u64,
    pub _reserved: [u8; 56],
}

/// At most this many bets may be open for one proposer.
pub const MAX_ACTIVE_BETS: u8 = 1;
/// Window length used when the configured one is 0.
pub const DEFAULT_WINDOW_SIZE: u8 = 10;
/// Smallest proposer stake, in lamports.
pub const MIN_STAKE: u64 = 10_000;
/// LP tokens locked away on the first deposit.
pub const MINIMUM_LIQUIDITY: u64 = 10_000;

/// The window length in force for a configured size: 0 means the default,
/// and no window is longer than the buffer.
pub open spec fn effective_window(window_size: u8) -> int {
    if window_size == 0 {
        DEFAULT_WINDOW_SIZE as int
    } else if window_size > 100 {
        100
    } else {
        window_size as int
    }
}

pub open spec fn min_int(a: int, b: int) -> int {
    if a <= b { a } else { b }
}

pub open spec fn max_int(a: int, b: int) -> int {
    if a >= b { a } else { b }
}

/// Lower clamp of the proposer probability: the configured bound, or 45%.
pub open spec fn odds_floor(min_odds_bps: u16) -> int {
    if min_odds_bps > 0 { min_odds_bps as int } else { 4_500 }
}

/// Upper clamp of the proposer probability: the configured bound, or 55%.
pub open spec fn odds_ceiling(max_odds_bps: u16) -> int {
    if max_odds_bps > 0 { max_odds_bps as int } else { 5_500 }
}

/// The clamp cannot push the probability past 100% (else the complement
/// would underflow).
pub open spec fn odds_bounds_ok(min_odds_bps: u16, max_odds_bps: u16) -> bool {
    !(odds_floor(min_odds_bps) > 10_000 && odds_ceiling(max_odds_bps) > 10_000)
}

/// Number of slots holding a 1.
pub open spec fn count_wins(s: Seq<u8>) -> nat
    decreases s.len(),
{
    if s.len() == 0 {
        0
    } else {
        count_wins(s.drop_last()) + (if s.last() == 1 { 1nat } else { 0nat })
    }
}

/// The window must be trimmed to length `ws` before recording: it holds more
/// outcomes than `ws`, or exactly `ws` with the head past the new end (the
/// window was shrunk).
pub open spec fn needs_trim(head: int, count: int, ws: int) -> bool {
    count > ws || (count == ws && head >= ws)
}

/// Buffer slot of the `k`-th kept outcome, oldest first: the window is read
/// as a ring of `count` slots whose next write goes to `head`, and the last
/// `ws` outcomes before the head are kept.
pub open spec fn kept_index(head: int, count: int, ws: int, k: int) -> int {
    (head + count - ws + k) % count
}

/// The trimmed buffer: the last `ws` outcomes, oldest first, in slots
/// `0..ws` (an outcome whose slot lies past the buffer counts as a loss);
/// every other slot cleared.
pub open spec fn kept_window(w: Seq<u8>, head: int, count: int, ws: int) -> Seq<u8> {
    Seq::new(
        100,
        |i: int|
            if i < ws && kept_index(head, count, ws, i) < 100 {
                w[kept_index(head, count, ws, i)]
            } else {
                0u8
            },
    )
}

/// The rolling window is consistent for window length `ws`: head and count
/// within range, the slots in use hold 0 or 1, slots not yet written and
/// slots past the window are 0, and `wins_in_window` counts the 1s.
pub open spec fn window_wf(w: Seq<u8>, head: int, count: int, wins: int, ws: int) -> bool {
    &&& 1 <= ws <= 100
    &&& w.len() == 100
    &&& 0 <= head < ws
    &&& 0 <= count <= ws
    &&& count < ws ==> head == count
    &&& forall|i: int| 0 <= i < 100 ==> (#[trigger] w[i] == 0 || w[i] == 1)
    &&& forall|i: int| (count <= i < 100 || ws <= i < 100) ==> #[trigger] w[i] == 0
    &&& wins == count_wins(w)
}


/// Window after the trim that a shrunk window length forces: the last `ws`
/// outcomes kept in order, the window full, the head at its oldest slot, and
/// the wins recounted over what was kept.
pub open spec fn trimmed_window(w: Seq<u8>, head: int, count: int, wins: int, ws: int) -> (
    Seq<u8>,
    int,
    int,
    int,
) {
    if needs_trim(head, count, ws) {
        (kept_window(w, head, count, ws), 0, ws, count_wins(kept_window(w, head, count, ws)) as int)
    } else {
        (w, head, count, wins)
    }
}

/// Wins before the new outcome is added: the overwritten slot's win is
/// dropped when the window is full.
pub open spec fn wins_before_record(w: Seq<u8>, head: int, count: int, wins: int, ws: int) -> int {
    let t = trimmed_window(w, head, count, wins, ws);
    if t.2 >= ws {
        if t.0[t.1] == 1 {
            max_int(t.3 - 1, 0)
        } else {
            t.3
        }
    } else {
        t.3
    }
}

/// Window (slots, head, count, wins) after recording one outcome.
pub open spec fn window_after_record(
    w: Seq<u8>,
    head: int,
    count: int,
    wins: int,
    win: bool,
    ws: int,
) -> (Seq<u8>, int, int, int) {
    let t = trimmed_window(w, head, count, wins, ws);
    let val: u8 = if win { 1 } else { 0 };
    (
        t.0.update(t.1, val),
        (t.1 + 1) % ws,
        if t.2 >= ws { t.2 } else { t.2 + 1 },
        wins_before_record(w, head, count, wins, ws) + (if win { 1int } else { 0int }),
    )
}

impl AgentVault {
    /// Every field but the outcome window is the same in `self` and `other`.
    pub open spec fn same_except_window(&self, other: &AgentVault) -> bool {
        &&& self.bot_id == other.bot_id
        &&& self.group_id == other.group_id
        &&& self.name == other.name
        &&& self.lp_mint == other.lp_mint
        &&& self.lp_authority == other.lp_authority
        &&& self.lp_mint_bump == other.lp_mint_bump
        &&& self.lp_authority_bump == other.lp_authority_bump
        &&& self.sol_balance == other.sol_balance
        &&& self.locked_sol == other.locked_sol
        &&& self.total_lp_supply == other.total_lp_supply
        &&& self.total_deposited == other.total_deposited
        &&& self.total_withdrawn == other.total_withdrawn
        &&& self.deposit_count == other.deposit_count
        &&& self.withdrawal_count == other.withdrawal_count
        &&& self.authorized_executor == other.authorized_executor
        &&& self.bets_proposed == other.bets_proposed
        &&& self.bets_won == other.bets_won
        &&& self.bets_lost == other.bets_lost
        &&& self.bets_tied == other.bets_tied
        &&& self.active_bet_count == other.active_bet_count
        &&& self.bump == other.bump
        &&& self.counterparty_locked_sol == other.counterparty_locked_sol
        &&& self._reserved == other._reserved
    }

    /// Recording an outcome neither indexes past the buffer nor overflows the
    /// win counter.
    pub open spec fn win_record_ok(&self, win: bool, window_size: u8) -> bool {
        let ws = effective_window(window_size);
        &&& (!needs_trim(self.window_head as int, self.window_count as int, ws) ==> self.window_head
            < 100)
        &&& wins_before_record(
            self.bet_window@,
            self.window_head as int,
            self.window_count as int,
            self.wins_in_window as int,
            ws,
        ) + (if win { 1int } else { 0int }) <= 255
    }

    /// Whether recording the outcome stays within the window and the win
    /// counter's range (see `win_record_ok`).
    pub fn win_record_fits(&self, win: bool, window_size: u8) -> (r: bool)
        ensures
            r == self.win_record_ok(win, window_size),
    {
        let ws: u8 = if window_size == 0 {
            DEFAULT_WINDOW_SIZE
        } else if window_size > 100 {
            100
        } else {
            window_size
        };
        assert(ws as int == effective_window(window_size));
        let c = self.window_count;
        let h = self.window_head;
        if c > ws || (c == ws && h >= ws) {
            proof {
                lemma_count_wins_bound(
                    kept_window(self.bet_window@, h as int, c as int, ws as int),
                );
            }
            true
        } else if h >= 100 {
            false
        } else {
            let before: u8 = if c >= ws && self.bet_window[h as usize] == 1 {
                self.wins_in_window.saturating_sub(1)
            } else {
                self.wins_in_window
            };
            let add: u16 = if win {
                1
            } else {
                0
            };
            (before as u16) + add <= 255
        }
    }

    /// Record a bet outcome in the rolling window (ties are not recorded).
    /// When the window length shrank below the recorded count, the window is
    /// first trimmed to the new length.
    pub fn update_win_rate(&mut self, win: bool, window_size: u8)
        requires
            old(self).win_record_ok(win, window_size),
        ensures
            final(self).same_except_window(old(self)),
            ({
                let r = window_after_record(
                    old(self).bet_window@,
                    old(self).window_head as int,
                    old(self).window_count as int,
                    old(self).wins_in_window as int,
                    win,
                    effective_window(window_size),
                );
                &&& final(self).bet_window@ == r.0
                &&& final(self).window_head == r.1
                &&& final(self).window_count == r.2
                &&& final(self).wins_in_window == r.3
            }),
    {
        let ghost w0 = self.bet_window@;
        let ghost h0 = self.window_head as int;
        let ghost c0 = self.window_count as int;
        let ghost n0 = self.wins_in_window as int;
        let ghost before = *self;
        let ws: u8 = if window_size == 0 {
            DEFAULT_WINDOW_SIZE
        } else if window_size > 100 {
            100
        } else {
            window_size
        };
        assert(ws as int == effective_window(window_size));
        if self.window_count > ws || (self.window_count == ws && self.window_head >= ws) {
            let cu: usize = self.window_count as usize;
            let hu: usize = self.window_head as usize;
            let wsu: usize = ws as usize;
            let ghost kept_seq = kept_window(w0, h0, c0, ws as int);
            let mut kept = [0u8; 100];
            let mut wins: u8 = 0;
            let mut k: usize = 0;
            while k < wsu
                invariant
                    1 <= wsu <= 100,
                    wsu == ws,
                    wsu <= cu <= 255,
                    cu as int == c0,
                    hu as int == h0,
                    hu <= 255,
                    self.bet_window@ == w0,
                    w0.len() == 100,
                    kept_seq == kept_window(w0, h0, c0, ws as int),
                    0 <= k <= wsu,
                    kept@.len() == 100,
                    forall|i: int| 0 <= i < k ==> kept@[i] == kept_seq[i],
                    forall|i: int| k <= i < 100 ==> kept@[i] == 0u8,
                    wins as int == count_wins(kept_seq.subrange(0, k as int)),
                    wins <= k,
                decreases wsu - k,
            {
                let idx: usize = (hu + cu - wsu + k) % cu;
                proof {
                    vstd::arithmetic::div_mod::lemma_mod_pos_bound((hu + cu - wsu + k) as int, cu as int);
                    assert(idx as int == kept_index(h0, c0, ws as int, k as int));
                }
                let x: u8 = if idx < 100 {
                    self.bet_window[idx]
                } else {
                    0
                };
                kept[k] = x;
                proof {
                    assert(kept_seq[k as int] == x);
                    assert(kept_seq.subrange(0, k + 1).drop_last() =~= kept_seq.subrange(0, k as int));
                }
                if x == 1 {
                    wins = wins + 1;
                }
                k = k + 1;
            }
            proof {
                assert(kept@ =~= kept_seq);
                lemma_count_wins_prefix(kept_seq, ws as int);
            }
            self.bet_window = kept;
            self.window_count = ws;
            self.window_head = 0;
            self.wins_in_window = wins;
        }
        let idx: usize = self.window_head as usize;
        if self.window_count >= ws {
            if self.bet_window[idx] == 1 {
                self.wins_in_window = self.wins_in_window.saturating_sub(1);
            }
        } else {
            self.window_count = self.window_count + 1;
        }
        let val: u8 = if win {
            1
        } else {
            0
        };
        self.bet_window[idx] = val;
        if win {
            self.wins_in_window = self.wins_in_window + 1;
        }
        self.window_head = ((self.window_head as usize + 1) % ws as usize) as u8;
    }

    /// Free capital available for new bets.
    pub fn free_capital(&self) -> (r: u64)
        ensures
            r == self.sol_balance.saturating_sub(self.locked_sol),
    {
        self.sol_balance.saturating_sub(self.locked_sol)
    }

    /// Balance used to price withdrawals: locked capital excluded.
    pub fn effective_balance(&self) -> (r: u64)
        ensures
            r == self.sol_balance.saturating_sub(self.locked_sol),
    {
        self.sol_balance.saturating_sub(self.locked_sol)
    }

    /// Outcomes counted for window length `window_size`.
    pub open spec fn spec_effective_count(&self, window_size: u8) -> int {
        min_int(self.window_count as int, effective_window(window_size))
    }

    /// Win rate over the window in basis points; 50% while the window is empty.
    pub open spec fn spec_win_rate_bps(&self, window_size: u8) -> int {
        let count = self.spec_effective_count(window_size);
        let wins = min_int(self.wins_in_window as int, count);
        if count == 0 {
            5_000
        } else {
            wins * 10_000 / count
        }
    }

    /// Proposer probability: the (possibly inverted) win rate clamped to
    /// [floor, ceiling], the clamp to the ceiling applied last.
    pub open spec fn spec_proposer_odds(
        &self,
        min_odds_bps: u16,
        max_odds_bps: u16,
        window_size: u8,
        invert: bool,
    ) -> int {
        let rate = if invert {
            max_int(10_000 - self.spec_win_rate_bps(window_size), 0)
        } else {
            self.spec_win_rate_bps(window_size)
        };
        min_int(max_int(rate, odds_floor(min_odds_bps)), odds_ceiling(max_odds_bps))
    }

    /// Dynamic odds from the rolling win rate: (proposer_bps, counterparty_bps),
    /// which sum to 10,000.
    pub fn compute_odds(
        &self,
        min_odds_bps: u16,
        max_odds_bps: u16,
        window_size: u8,
        invert: bool,
    ) -> (r: (u64, u64))
        requires
            odds_bounds_ok(min_odds_bps, max_odds_bps),
        ensures
            r.0 == self.spec_proposer_odds(min_odds_bps, max_odds_bps, window_size, invert),
            r.1 == 10_000 - r.0,
            1 <= r.0 <= 10_000,
            0 <= self.spec_win_rate_bps(window_size) <= 10_000,
    {
        let ws: u8 = if window_size == 0 {
            DEFAULT_WINDOW_SIZE
        } else if window_size > 100 {
            100
        } else {
            window_size
        };
        let count: u64 = if (self.window_count as u64) < (ws as u64) {
            self.window_count as u64
        } else {
            ws as u64
        };
        let wins: u64 = if (self.wins_in_window as u64) < count {
            self.wins_in_window as u64
        } else {
            count
        };
        let win_rate_bps: u64 = if count == 0 {
            5_000
        } else {
            proof {
                assert(wins * 10_000 <= count * 10_000) by (nonlinear_arith)
                    requires
                        wins <= count,
                ;
                assert((wins as int) * 10_000 / (count as int) <= 10_000) by (nonlinear_arith)
                    requires
                        wins <= count,
                        count > 0,
                ;
            }
            wins * 10_000 / count
        };
        let rate: u64 = if invert {
            10_000u64.saturating_sub(win_rate_bps)
        } else {
            win_rate_bps
        };
        let floor: u64 = if min_odds_bps > 0 {
            min_odds_bps as u64
        } else {
            4_500
        };
        let ceiling: u64 = if max_odds_bps > 0 {
            max_odds_bps as u64
        } else {
            5_500
        };
        let lifted: u64 = if rate >= floor {
            rate
        } else {
            floor
        };
        let p: u64 = if lifted <= ceiling {
            lifted
        } else {
            ceiling
        };
        let q = 10_000 - p;
        (p, q)
    }

    /// Proposer stake for a Kelly input: `stake_bps` (capped at 500) of the
    /// free capital.
    pub open spec fn spec_proposer_stake(&self, stake_bps: u64) -> int {
        let capped = min_int(stake_bps as int, 500);
        self.sol_balance.saturating_sub(self.locked_sol) * capped / 10_000
    }

    /// The sizes `apply_odds_to_stake` multiplies fit in 64 bits.
    pub open spec fn stake_products_fit(
        &self,
        stake_bps: u64,
        min_odds_bps: u16,
        max_odds_bps: u16,
        window_size: u8,
        invert: bool,
    ) -> bool {
        let capped = min_int(stake_bps as int, 500);
        let p = self.spec_proposer_odds(min_odds_bps, max_odds_bps, window_size, invert);
        &&& self.sol_balance.saturating_sub(self.locked_sol) * capped <= u64::MAX
        &&& self.spec_proposer_stake(stake_bps) * (10_000 - p) <= u64::MAX
    }

    /// Proposer stake and counterparty pool for a Kelly input and the current
    /// odds: stake = free × min(stake_bps, 500) / 10,000, pool = stake × q / p.
    pub fn apply_odds_to_stake(
        &self,
        stake_bps: u64,
        min_odds_bps: u16,
        max_odds_bps: u16,
        window_size: u8,
        invert: bool,
    ) -> (r: (u64, u64))
        requires
            odds_bounds_ok(min_odds_bps, max_odds_bps),
            self.stake_products_fit(stake_bps, min_odds_bps, max_odds_bps, window_size, invert),
        ensures
            r.0 == self.spec_proposer_stake(stake_bps),
            r.1 == r.0 * (10_000 - self.spec_proposer_odds(
                min_odds_bps,
                max_odds_bps,
                window_size,
                invert,
            )) / self.spec_proposer_odds(min_odds_bps, max_odds_bps, window_size, invert),
    {
        let free = self.free_capital();
        let capped_bps: u64 = if stake_bps < 500 {
            stake_bps
        } else {
            500
        };
        let proposer_stake = free * capped_bps / 10_000;
        let (p, q) = self.compute_odds(min_odds_bps, max_odds_bps, window_size, invert);
        let cp_pool = proposer_stake * q / p;
        (proposer_stake, cp_pool)
    }
}


/// Changing one slot changes the win count by the difference of the slot's
/// old and new win flags.
pub proof fn lemma_count_wins_update(s: Seq<u8>, i: int, x: u8)
    requires
        0 <= i < s.len(),
    ensures
        count_wins(s.update(i, x)) + (if s[i] == 1 { 1int } else { 0int }) == count_wins(s) + (
        if x == 1 {
            1int
        } else {
            0int
        }),
    decreases s.len(),
{
    let t = s.update(i, x);
    if i == s.len() - 1 {
        assert(t.drop_last() =~= s.drop_last());
    } else {
        lemma_count_wins_update(s.drop_last(), i, x);
        assert(t.drop_last() =~= s.drop_last().update(i, x));
    }
}

/// Slots past `n` holding no wins add nothing to the count.
pub proof fn lemma_count_wins_prefix(s: Seq<u8>, n: int)
    requires
        0 <= n <= s.len(),
        forall|i: int| n <= i < s.len() ==> s[i] == 0,
    ensures
        count_wins(s) == count_wins(s.subrange(0, n)),
    decreases s.len(),
{
    if s.len() > n {
        assert(s.drop_last().subrange(0, n) =~= s.subrange(0, n));
        lemma_count_wins_prefix(s.drop_last(), n);
    } else {
        assert(s.subrange(0, n) =~= s);
    }
}

/// The win count never exceeds the number of slots.
pub proof fn lemma_count_wins_bound(s: Seq<u8>)
    ensures
        count_wins(s) <= s.len(),
    decreases s.len(),
{
    if s.len() > 0 {
        lemma_count_wins_bound(s.drop_last());
    }
}

/// A window of zeros holds no wins.
pub proof fn lemma_count_wins_zero(s: Seq<u8>)
    requires
        forall|i: int| 0 <= i < s.len() ==> s[i] == 0,
    ensures
        count_wins(s) == 0,
    decreases s.len(),
{
    if s.len() > 0 {
        lemma_count_wins_zero(s.drop_last());
    }
}

/// A fresh vault's window (all zeros, head 0, count 0, no wins) is consistent
/// for every window length.
pub proof fn law_fresh_window_wf(window_size: u8)
    ensures
        window_wf(Seq::new(100, |i: int| 0u8), 0, 0, 0, effective_window(window_size)),
{
    lemma_count_wins_zero(Seq::new(100, |i: int| 0u8));
}

/// Recording one outcome into a consistent window of the length in force
/// keeps it consistent.
proof fn lemma_record_wf(w: Seq<u8>, h: int, c: int, n: int, win: bool, ws: int)
    requires
        window_wf(w, h, c, n, ws),
    ensures
        !needs_trim(h, c, ws),
        h < 100,
        wins_before_record(w, h, c, n, ws) + (if win { 1int } else { 0int }) <= 255,
        ({
            let r = window_after_record(w, h, c, n, win, ws);
            window_wf(r.0, r.1, r.2, r.3, ws)
        }),
{
    let val: u8 = if win { 1 } else { 0 };
    lemma_count_wins_update(w, h, val);
    lemma_count_wins_update(w, h, 0);
    lemma_count_wins_bound(w.update(h, val));
    lemma_count_wins_bound(w);
    let r = window_after_record(w, h, c, n, win, ws);
    assert(r.0 == w.update(h, val));
    assert forall|i: int| 0 <= i < 100 implies (#[trigger] r.0[i] == 0 || r.0[i] == 1) by {
        if i != h {
            assert(w[i] == 0 || w[i] == 1);
        }
    }
    assert forall|i: int| (r.2 <= i < 100 || ws <= i < 100) implies #[trigger] r.0[i] == 0 by {
        assert(i != h);
        assert(w[i] == 0);
    }
    if c >= ws {
        assert(r.2 == ws);
        assert(r.3 == count_wins(r.0));
    } else {
        assert(w[h] == 0);
        assert(r.2 == c + 1);
        assert(r.3 == count_wins(r.0));
        if h + 1 < ws {
            vstd::arithmetic::div_mod::lemma_small_mod((h + 1) as nat, ws as nat);
            assert(r.1 == h + 1);
        } else {
            vstd::arithmetic::div_mod::lemma_mod_self_0(ws);
            assert(r.1 == 0);
        }
    }
    assert(0 <= r.1 < ws);
}

/// Recording one outcome into a window consistent for a length `ws0` at
/// least the length `ws` in force keeps it consistent for `ws`.
proof fn lemma_record_shrunk_wf(w: Seq<u8>, h: int, c: int, n: int, win: bool, ws: int, ws0: int)
    requires
        window_wf(w, h, c, n, ws0),
        1 <= ws <= ws0,
    ensures
        needs_trim(h, c, ws) ==> c <= 100,
        !needs_trim(h, c, ws) ==> h < 100,
        wins_before_record(w, h, c, n, ws) + (if win { 1int } else { 0int }) <= 255,
        ({
            let r = window_after_record(w, h, c, n, win, ws);
            window_wf(r.0, r.1, r.2, r.3, ws)
        }),
{
    if needs_trim(h, c, ws) {
        let kept = kept_window(w, h, c, ws);
        let cw = count_wins(kept) as int;
        assert forall|i: int| 0 <= i < 100 implies (#[trigger] kept[i] == 0 || kept[i] == 1) by {
            if i < ws {
                vstd::arithmetic::div_mod::lemma_mod_pos_bound(h + c - ws + i, c);
                let j = kept_index(h, c, ws, i);
                assert(0 <= j < 100);
                assert(w[j] == 0 || w[j] == 1);
            }
        }
        assert(window_wf(kept, 0, ws, cw, ws));
        lemma_record_wf(kept, 0, ws, cw, win, ws);
        assert(trimmed_window(w, h, c, n, ws) == (kept, 0int, ws, cw));
        assert(trimmed_window(kept, 0, ws, cw, ws) == (kept, 0int, ws, cw));
        assert(wins_before_record(w, h, c, n, ws) == wins_before_record(kept, 0, ws, cw, ws));
        assert(window_after_record(w, h, c, n, win, ws) == window_after_record(kept, 0, ws, cw, win, ws));
    } else {
        if ws < ws0 {
            assert(c < ws0);
            assert(h == c);
        }
        assert(window_wf(w, h, c, n, ws));
        lemma_record_wf(w, h, c, n, win, ws);
    }
}

/// Recording outcomes keeps the window consistent, also when the window
/// length was lowered since the last outcome: the stale outcomes are
/// trimmed so that `wins_in_window` counts exactly the wins among the kept
/// outcomes, the window holds at most the new length, and recording never
/// fails. `ws0` is the length the window was consistent for; lengthening the
/// window is not covered.
pub proof fn law_window_wf_preserved(v: AgentVault, win: bool, window_size: u8, ws0: int)
    requires
        window_wf(
            v.bet_window@,
            v.window_head as int,
            v.window_count as int,
            v.wins_in_window as int,
            ws0,
        ),
        effective_window(window_size) <= ws0,
    ensures
        v.win_record_ok(win, window_size),
        ({
            let r = window_after_record(
                v.bet_window@,
                v.window_head as int,
                v.window_count as int,
                v.wins_in_window as int,
                win,
                effective_window(window_size),
            );
            window_wf(r.0, r.1, r.2, r.3, effective_window(window_size))
        }),
{
    lemma_record_shrunk_wf(
        v.bet_window@,
        v.window_head as int,
        v.window_count as int,
        v.wins_in_window as int,
        win,
        effective_window(window_size),
        ws0,
    );
}

/// The window after recording `outcomes` in order under length `ws`.
pub open spec fn window_after_run(
    w: Seq<u8>,
    h: int,
    c: int,
    n: int,
    outcomes: Seq<bool>,
    ws: int,
) -> (Seq<u8>, int, int, int)
    decreases outcomes.len(),
{
    if outcomes.len() == 0 {
        (w, h, c, n)
    } else {
        let r = window_after_record(w, h, c, n, outcomes[0], ws);
        window_after_run(r.0, r.1, r.2, r.3, outcomes.drop_first(), ws)
    }
}

/// Over any run of recorded outcomes the window stays consistent: from a
/// window consistent for a length at least the one in force, after every
/// run the win counter counts exactly the wins among the kept outcomes, at
/// most the window length are kept, and every step could be recorded.
pub proof fn law_window_run_wf(
    w: Seq<u8>,
    h: int,
    c: int,
    n: int,
    outcomes: Seq<bool>,
    window_size: u8,
    ws0: int,
)
    requires
        window_wf(w, h, c, n, ws0),
        effective_window(window_size) <= ws0,
    ensures
        ({
            let r = window_after_run(w, h, c, n, outcomes, effective_window(window_size));
            &&& outcomes.len() > 0 ==> window_wf(r.0, r.1, r.2, r.3, effective_window(window_size))
            &&& r.3 == count_wins(r.0)
            &&& r.3 <= r.2
        }),
    decreases outcomes.len(),
{
    let ws = effective_window(window_size);
    if outcomes.len() == 0 {
        lemma_count_wins_bound(w);
        if c < ws0 {
            assert forall|i: int| c <= i < 100 implies w[i] == 0 by {}
            lemma_count_wins_prefix(w, c);
            lemma_count_wins_bound(w.subrange(0, c));
        } else {
            lemma_count_wins_prefix(w, ws0);
            lemma_count_wins_bound(w.subrange(0, ws0));
        }
    } else {
        lemma_record_shrunk_wf(w, h, c, n, outcomes[0], ws, ws0);
        let r = window_after_record(w, h, c, n, outcomes[0], ws);
        law_window_run_wf(r.0, r.1, r.2, r.3, outcomes.drop_first(), window_size, ws);
        if outcomes.drop_first().len() == 0 {
            assert(window_after_run(w, h, c, n, outcomes, ws) == r);
        }
    }
}


/// The rolling window as documented for window length `ws`: at most `ws`
/// outcomes, the head inside the window, unwritten slots of a window not yet
/// full cleared, every slot 0 or 1, and the counter equal to the wins among
/// the first `ws` slots. Slots past the window may hold anything 0 or 1.
pub open spec fn window_inv(w: Seq<u8>, h: int, c: int, n: int, ws: int) -> bool {
    &&& 1 <= ws <= 100
    &&& w.len() == 100
    &&& 0 <= c <= ws
    &&& 0 <= h < ws
    &&& c < ws ==> h == c && forall|i: int| c <= i < ws ==> #[trigger] w[i] == 0
    &&& forall|i: int| 0 <= i < 100 ==> #[trigger] w[i] <= 1
    &&& n == count_wins(w.subrange(0, ws))
}

/// The slot value recording an outcome.
pub open spec fn bit(b: bool) -> u8 {
    if b { 1 } else { 0 }
}

/// One recording step under the documented window invariant, on the
/// window's parts.
proof fn lemma_inv_record(w: Seq<u8>, h: int, c: int, n: int, win: bool, ws: int)
    requires
        window_inv(w, h, c, n, ws),
    ensures
        !needs_trim(h, c, ws),
        h < 100,
        wins_before_record(w, h, c, n, ws) + (if win { 1int } else { 0int }) <= 255,
        ({
            let r = window_after_record(w, h, c, n, win, ws);
            &&& window_inv(r.0, r.1, r.2, r.3, ws)
            &&& r.2 == if c + 1 <= ws { c + 1 } else { ws }
            &&& r.1 == (h + 1) % ws
            &&& r.0 == w.update(h, bit(win))
        }),
{
    let val = bit(win);
    assert(!needs_trim(h, c, ws));
    let pre = w.subrange(0, ws);
    let r = window_after_record(w, h, c, n, win, ws);
    assert(r.0 == w.update(h, val));
    assert(r.0.subrange(0, ws) =~= pre.update(h, val));
    lemma_count_wins_update(pre, h, val);
    lemma_count_wins_bound(pre);
    lemma_count_wins_bound(pre.update(h, val));
    if c < ws {
        assert(w[h] == 0);
        assert(pre[h] == 0);
        if h + 1 < ws {
            vstd::arithmetic::div_mod::lemma_small_mod((h + 1) as nat, ws as nat);
        } else {
            vstd::arithmetic::div_mod::lemma_mod_self_0(ws);
        }
        assert forall|i: int| r.2 <= i < ws implies #[trigger] r.0[i] == 0 by {
            assert(i != h);
        }
    } else {
        if h + 1 < ws {
            vstd::arithmetic::div_mod::lemma_small_mod((h + 1) as nat, ws as nat);
        } else {
            vstd::arithmetic::div_mod::lemma_mod_self_0(ws);
        }
    }
    assert forall|i: int| 0 <= i < 100 implies #[trigger] r.0[i] <= 1 by {
        if i != h {
            assert(w[i] <= 1);
        }
    }
    assert(r.2 == if c + 1 <= ws { c + 1 } else { ws });
    assert(r.1 == (h + 1) % ws);
    assert(0 <= r.1 < ws);
    let nw = count_wins(pre.update(h, val)) as int;
    let add: int = if win { 1 } else { 0 };
    assert((if val == 1 { 1int } else { 0int }) == add);
    if c < ws {
        assert(wins_before_record(w, h, c, n, ws) == n);
        assert(nw == n + add);
    } else if w[h] == 1 {
        assert(pre[h] == 1);
        assert(nw + 1 == n + add);
        lemma_count_wins_update(pre, h, 0u8);
        assert(n >= 1);
        assert(trimmed_window(w, h, c, n, ws) == (w, h, c, n));
        assert(wins_before_record(w, h, c, n, ws) == n - 1);
    } else {
        assert(pre[h] != 1);
        assert(wins_before_record(w, h, c, n, ws) == n);
    }
    assert(r.3 == count_wins(r.0.subrange(0, ws)));
    assert(window_inv(r.0, r.1, r.2, r.3, ws));
}

/// Recording an outcome under the length the window is consistent for keeps
/// it consistent and does exactly this: the outcome written at the head, the
/// head advanced round the window, one more outcome counted until the window
/// is full, and the counter adjusted by the outcome written and the one it
/// replaced.
pub proof fn law_window_inv_preserved(v: AgentVault, win: bool, window_size: u8)
    requires
        window_inv(
            v.bet_window@,
            v.window_head as int,
            v.window_count as int,
            v.wins_in_window as int,
            effective_window(window_size),
        ),
    ensures
        v.win_record_ok(win, window_size),
        ({
            let ws = effective_window(window_size);
            let h = v.window_head as int;
            let c = v.window_count as int;
            let r = window_after_record(v.bet_window@, h, c, v.wins_in_window as int, win, ws);
            &&& window_inv(r.0, r.1, r.2, r.3, ws)
            &&& r.2 == if c + 1 <= ws { c + 1 } else { ws }
            &&& r.1 == (h + 1) % ws
            &&& r.0 == v.bet_window@.update(h, bit(win))
        }),
{
    lemma_inv_record(
        v.bet_window@,
        v.window_head as int,
        v.window_count as int,
        v.wins_in_window as int,
        win,
        effective_window(window_size),
    );
}

/// A window consistent in the strong sense is consistent as documented.
proof fn lemma_wf_to_inv(w: Seq<u8>, h: int, c: int, n: int, ws: int)
    requires
        window_wf(w, h, c, n, ws),
    ensures
        window_inv(w, h, c, n, ws),
        n <= ws,
{
    assert forall|i: int| ws <= i < w.len() implies w[i] == 0 by {}
    lemma_count_wins_prefix(w, ws);
    lemma_count_wins_bound(w.subrange(0, ws));
    assert forall|i: int| 0 <= i < 100 implies #[trigger] w[i] <= 1 by {
        assert(w[i] == 0 || w[i] == 1);
    }
}

/// When the window length was lowered below the outcomes recorded, the
/// stale outcomes are trimmed: after recording, the window holds exactly
/// the new length of outcomes, the head is inside it, and the counter
/// equals the wins in the window (at most its length).
pub proof fn law_window_shrink_inv(v: AgentVault, win: bool, window_size: u8, ws0: int)
    requires
        window_inv(
            v.bet_window@,
            v.window_head as int,
            v.window_count as int,
            v.wins_in_window as int,
            ws0,
        ),
        effective_window(window_size) < v.window_count,
    ensures
        v.win_record_ok(win, window_size),
        ({
            let ws = effective_window(window_size);
            let r = window_after_record(
                v.bet_window@,
                v.window_head as int,
                v.window_count as int,
                v.wins_in_window as int,
                win,
                ws,
            );
            &&& window_inv(r.0, r.1, r.2, r.3, ws)
            &&& r.2 == ws
            &&& 0 <= r.1 < ws
            &&& r.3 <= ws
            &&& r.3 == count_wins(r.0.subrange(0, ws))
        }),
{
    let ws = effective_window(window_size);
    let w = v.bet_window@;
    let h = v.window_head as int;
    let c = v.window_count as int;
    let n = v.wins_in_window as int;
    assert(needs_trim(h, c, ws));
    let kept = kept_window(w, h, c, ws);
    let cw = count_wins(kept) as int;
    assert forall|i: int| 0 <= i < 100 implies (#[trigger] kept[i] == 0 || kept[i] == 1) by {
        if i < ws && kept_index(h, c, ws, i) < 100 {
            let j = kept_index(h, c, ws, i);
            vstd::arithmetic::div_mod::lemma_mod_pos_bound(h + c - ws + i, c);
            assert(w[j] <= 1);
        }
    }
    assert(window_wf(kept, 0, ws, cw, ws));
    lemma_record_wf(kept, 0, ws, cw, win, ws);
    lemma_count_wins_bound(kept);
    assert(trimmed_window(w, h, c, n, ws) == (kept, 0int, ws, cw));
    assert(trimmed_window(kept, 0, ws, cw, ws) == (kept, 0int, ws, cw));
    assert(wins_before_record(w, h, c, n, ws) == wins_before_record(kept, 0, ws, cw, ws));
    assert(window_after_record(w, h, c, n, win, ws) == window_after_record(kept, 0, ws, cw, win, ws));
    let r = window_after_record(w, h, c, n, win, ws);
    lemma_wf_to_inv(r.0, r.1, r.2, r.3, ws);
}

/// Number of `true`s in a sequence of outcomes.
pub open spec fn count_true(s: Seq<bool>) -> nat
    decreases s.len(),
{
    if s.len() == 0 {
        0
    } else {
        count_true(s.drop_last()) + (if s.last() { 1nat } else { 0nat })
    }
}

/// The window of a fresh vault after recording `o` in order, each under
/// window length `ws`.
pub open spec fn window_after_outcomes(o: Seq<bool>, ws: int) -> (Seq<u8>, int, int, int)
    decreases o.len(),
{
    if o.len() == 0 {
        (Seq::new(100, |i: int| 0u8), 0, 0, 0)
    } else {
        let r = window_after_outcomes(o.drop_last(), ws);
        window_after_record(r.0, r.1, r.2, r.3, o.last(), ws)
    }
}

/// Slot of the `j`-th most recent outcome in a ring of `ws` slots whose
/// next write goes to `h`.
pub open spec fn ring_slot(h: int, j: int, ws: int) -> int {
    if h - 1 - j >= 0 {
        h - 1 - j
    } else {
        h - 1 - j + ws
    }
}

proof fn lemma_count_true_first(s: Seq<bool>)
    requires
        s.len() > 0,
    ensures
        count_true(s) == (if s[0] { 1int } else { 0int }) + count_true(s.drop_first()),
    decreases s.len(),
{
    let t = s.drop_first();
    if s.len() > 1 {
        lemma_count_true_first(s.drop_last());
        assert(t.drop_last() =~= s.drop_last().drop_first());
        assert(t.last() == s.last());
        assert(s.drop_last()[0] == s[0]);
        assert(count_true(t) == count_true(t.drop_last()) + (if t.last() { 1nat } else { 0nat }));
    } else {
        assert(t.len() == 0);
        assert(count_true(t) == 0);
        assert(s.drop_last().len() == 0);
        assert(count_true(s.drop_last()) == 0);
        assert(s.last() == s[0]);
    }
}

/// The window after a run of outcomes from a fresh vault: the last outcomes
/// sit in the ring behind the head, and the counter counts the wins among
/// them.
proof fn lemma_rolling(o: Seq<bool>, ws: int)
    requires
        1 <= ws <= 100,
    ensures
        ({
            let r = window_after_outcomes(o, ws);
            let n = o.len() as int;
            let m = if n <= ws { n } else { ws };
            &&& r.0.len() == 100
            &&& 0 <= r.1 < ws
            &&& r.2 == m
            &&& r.2 < ws ==> r.1 == r.2
            &&& forall|j: int| 0 <= j < m ==> #[trigger] r.0[ring_slot(r.1, j, ws)] == bit(o[n - 1 - j])
            &&& r.3 == count_true(o.subrange(n - m, n))
            &&& window_inv(r.0, r.1, r.2, r.3, ws)
        }),
    decreases o.len(),
{
    let n = o.len() as int;
    if n == 0 {
        assert(o.subrange(0, 0).len() == 0);
        let z = Seq::new(100, |i: int| 0u8);
        lemma_count_wins_zero(z.subrange(0, ws));
    } else {
        let o0 = o.drop_last();
        let x = o.last();
        lemma_rolling(o0, ws);
        let r0 = window_after_outcomes(o0, ws);
        let n0 = n - 1;
        let m0 = if n0 <= ws { n0 } else { ws };
        let m = if n <= ws { n } else { ws };
        let h = r0.1;
        let c = r0.2;
        let val = bit(x);
        lemma_inv_record(r0.0, h, c, r0.3, x, ws);
        let r = window_after_record(r0.0, h, c, r0.3, x, ws);
        assert(r == window_after_outcomes(o, ws));
        assert(r.0 == r0.0.update(h, val));
        if h + 1 < ws {
            vstd::arithmetic::div_mod::lemma_small_mod((h + 1) as nat, ws as nat);
            assert(r.1 == h + 1);
        } else {
            vstd::arithmetic::div_mod::lemma_mod_self_0(ws);
            assert(r.1 == 0);
        }
        assert forall|j: int| 0 <= j < m implies #[trigger] r.0[ring_slot(r.1, j, ws)] == bit(
            o[n - 1 - j],
        ) by {
            if j == 0 {
                assert(ring_slot(r.1, 0, ws) == h);
            } else {
                assert(ring_slot(r.1, j, ws) == ring_slot(h, j - 1, ws));
                assert(ring_slot(h, j - 1, ws) != h);
                assert(r0.0[ring_slot(h, j - 1, ws)] == bit(o0[n0 - 1 - (j - 1)]));
                assert(o0[n0 - 1 - (j - 1)] == o[n - 1 - j]);
            }
        }
        if c < ws {
            assert(m == n);
            assert(o.subrange(0, n) =~= o);
            assert(o0.subrange(0, n0) =~= o0);
            assert(r.3 == r0.3 + val);
        } else {
            assert(m == ws && m0 == ws);
            let s0 = o0.subrange(n0 - ws, n0);
            let s1 = o.subrange(n - ws, n);
            assert(ring_slot(h, ws - 1, ws) == h);
            assert(r0.0[h] == bit(o0[n0 - 1 - (ws - 1)]));
            assert(s0[0] == o0[n0 - ws]);
            lemma_count_true_first(s0);
            assert(s0.drop_first() =~= s1.drop_last());
            assert(s1.last() == x);
            assert(count_true(s1) == count_true(s1.drop_last()) + (if x { 1nat } else { 0nat }));
        }
    }
}

/// The documented rolling window: from a fresh vault, after any run of
/// outcomes recorded under one window length, the vault has counted as many
/// outcomes as the run holds, up to the window length, and its win counter
/// equals the wins among the last that many outcomes. The window stays
/// consistent as documented, so the next outcome can always be recorded
/// (see `law_window_inv_preserved`).
pub proof fn law_rolling_window(o: Seq<bool>, window_size: u8)
    ensures
        ({
            let ws = effective_window(window_size);
            let n = o.len() as int;
            let m = if n <= ws { n } else { ws };
            let r = window_after_outcomes(o, ws);
            &&& r.2 == m
            &&& r.3 == count_true(o.subrange(n - m, n))
            &&& window_inv(r.0, r.1, r.2, r.3, ws)
        }),
{
    lemma_rolling(o, effective_window(window_size));
}

} // verus!
