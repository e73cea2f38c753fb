//! Proposing a bet: the proposer's stake from its Kelly input and odds, and
//! the counterparty pool locked pro rata from the other bots' free capital,
//! each counterparty's share capped by the exposure limit.

use vstd::prelude::*;
use crate::clock::Clock;
use crate::error::{ProgramError, RogueTraderError};
use crate::events::BetProposed;
use crate::instructions::accounts::{duplicate_before, is_vault_address, seen_matches, vault_address_matches};
use crate::instructions::price::{
    checked_price,
    data_conf,
    data_exponent,
    data_feed_id,
    data_price,
    data_publish_time,
    price_message_error,
};
use crate::pubkey::Pubkey;
use crate::pyth::{PriceUpdateV2, price_decodes};
use crate::state::agent_vault::{AgentVault, MAX_ACTIVE_BETS, MIN_STAKE, odds_bounds_ok};
use crate::state::bet::{Bet, CounterpartyPosition, Direction, MAX_COUNTERPARTIES, OUTCOME_PENDING};
use crate::state::clearing_house::ClearingHouseState;
use crate::state::group_config::GroupConfig;

verus! {

/// Minimum bet duration in seconds.
pub const MIN_BET_DURATION: i64 = 30;
/// Maximum bet duration in seconds (24 hours).
pub const MAX_BET_DURATION: i64 = 86_400;

/// Free capital of a vault.
pub open spec fn free_of(v: AgentVault) -> u64 {
    v.sol_balance.saturating_sub(v.locked_sol)
}

/// Free capital of the first `n` vaults together.
pub open spec fn sum_free(vaults: Seq<AgentVault>, n: int) -> int
    decreases n,
{
    if n <= 0 {
        0
    } else {
        sum_free(vaults, n - 1) + free_of(vaults[n - 1])
    }
}

/// A counterparty's exposure cap: `max_cp_bps` of its free capital, or no cap
/// when the limit is 0.
pub open spec fn cp_cap(free: u64, max_cp_bps: u16) -> u64 {
    if max_cp_bps > 0 {
        ((free as int) * (max_cp_bps as int) / 10_000) as u64
    } else {
        u64::MAX
    }
}

/// A counterparty's stake for a pool `target` drawn from `total` free
/// capital: its pro-rata share, capped; nothing when it has no free capital.
pub open spec fn cp_share(free: u64, target: u64, total: u64, max_cp_bps: u16) -> u64 {
    if free == 0 {
        0
    } else {
        let proportional = ((free as int) * (target as int) / (total as int)) as u64;
        if proportional <= cp_cap(free, max_cp_bps) {
            proportional
        } else {
            cp_cap(free, max_cp_bps)
        }
    }
}

/// Stakes of the first `n` vaults for a pool `target`.
pub open spec fn shares_total(
    vaults: Seq<AgentVault>,
    target: u64,
    total: u64,
    max_cp_bps: u16,
    n: int,
) -> int
    decreases n,
{
    if n <= 0 {
        0
    } else {
        shares_total(vaults, target, total, max_cp_bps, n - 1) + cp_share(
            free_of(vaults[n - 1]),
            target,
            total,
            max_cp_bps,
        )
    }
}

/// The first check failing for counterparty account `i`: address, bot id
/// range, uniqueness, not the proposer, and the running free-capital sum
/// within 64 bits.
pub open spec fn propose_account_error(
    vaults: Seq<AgentVault>,
    keys: Seq<Pubkey>,
    program_id: Seq<u8>,
    proposer_bot: u8,
    i: int,
) -> Option<RogueTraderError> {
    if !is_vault_address(keys[i]@, vaults[i].bot_id, program_id) {
        Some(RogueTraderError::InvalidCounterpartyVault)
    } else if vaults[i].bot_id > 30 {
        Some(RogueTraderError::InvalidCounterpartyVault)
    } else if duplicate_before(vaults, i) {
        Some(RogueTraderError::DuplicateCounterparty)
    } else if vaults[i].bot_id == proposer_bot {
        Some(RogueTraderError::SelfCounterparty)
    } else if sum_free(vaults, i + 1) > u64::MAX {
        Some(RogueTraderError::MathOverflow)
    } else {
        None
    }
}

/// The error of the first counterparty account from `i` on that fails.
pub open spec fn first_propose_account_error(
    vaults: Seq<AgentVault>,
    keys: Seq<Pubkey>,
    program_id: Seq<u8>,
    proposer_bot: u8,
    i: int,
) -> Option<RogueTraderError>
    decreases vaults.len() - i,
{
    if i < 0 || i >= vaults.len() {
        None
    } else if propose_account_error(vaults, keys, program_id, proposer_bot, i) is Some {
        propose_account_error(vaults, keys, program_id, proposer_bot, i)
    } else {
        first_propose_account_error(vaults, keys, program_id, proposer_bot, i + 1)
    }
}

/// The first-pass figures of the counterparties.
pub struct Scan {
    pub frees: Vec<u64>,
    pub caps: Vec<u64>,
    pub total_free: u64,
}

fn scan_counterparties(
    vaults: &Vec<AgentVault>,
    keys: &Vec<Pubkey>,
    program_id: &Pubkey,
    proposer_bot: u8,
    max_cp_bps: u16,
) -> (r: Result<Scan, RogueTraderError>)
    requires
        vaults@.len() == keys@.len(),
    ensures
        match first_propose_account_error(vaults@, keys@, program_id@, proposer_bot, 0) {
            Some(e) => r == Err::<Scan, RogueTraderError>(e),
            None => r is Ok,
        },
        r matches Ok(s) ==> {
            &&& s.frees@.len() == vaults@.len()
            &&& s.caps@.len() == vaults@.len()
            &&& s.total_free == sum_free(vaults@, vaults@.len() as int)
            &&& forall|j: int| 0 <= j < vaults@.len() ==> #[trigger] s.frees@[j] == free_of(vaults@[j])
            &&& forall|j: int|
                0 <= j < vaults@.len() ==> #[trigger] s.caps@[j] == cp_cap(
                    free_of(vaults@[j]),
                    max_cp_bps,
                )
        },
{
    let n = vaults.len();
    let mut frees: Vec<u64> = Vec::new();
    let mut caps: Vec<u64> = Vec::new();
    let mut total_free: u64 = 0;
    let mut seen: [bool; 31] = [false; 31];
    let mut i: usize = 0;
    assert(seen_matches(seen@, vaults@, 0));
    while i < n
        invariant
            n == vaults@.len(),
            n == keys@.len(),
            i <= n,
            first_propose_account_error(vaults@, keys@, program_id@, proposer_bot, 0)
                == first_propose_account_error(vaults@, keys@, program_id@, proposer_bot, i as int),
            seen_matches(seen@, vaults@, i as int),
            frees@.len() == i,
            caps@.len() == i,
            total_free == sum_free(vaults@, i as int),
            forall|j: int| 0 <= j < i ==> #[trigger] frees@[j] == free_of(vaults@[j]),
            forall|j: int|
                0 <= j < i ==> #[trigger] caps@[j] == cp_cap(free_of(vaults@[j]), max_cp_bps),
        decreases n - i,
    {
        let v = &vaults[i];
        if !vault_address_matches(&keys[i], v.bot_id, program_id) {
            return Err(RogueTraderError::InvalidCounterpartyVault);
        }
        let bid = v.bot_id as usize;
        if bid > 30 {
            return Err(RogueTraderError::InvalidCounterpartyVault);
        }
        if seen[bid] {
            assert(duplicate_before(vaults@, i as int));
            return Err(RogueTraderError::DuplicateCounterparty);
        }
        assert(!duplicate_before(vaults@, i as int));
        seen[bid] = true;
        if v.bot_id == proposer_bot {
            return Err(RogueTraderError::SelfCounterparty);
        }
        let free = v.free_capital();
        total_free = match total_free.checked_add(free) {
            Some(t) => t,
            None => {
                return Err(RogueTraderError::MathOverflow);
            },
        };
        let cap: u64 = if max_cp_bps > 0 {
            assert((free as int) * (max_cp_bps as int) <= u128::MAX) by (nonlinear_arith)
                requires
                    free <= u64::MAX,
                    max_cp_bps <= u16::MAX,
            ;
            #[verifier::truncate]
            (((free as u128) * (max_cp_bps as u128) / 10_000u128) as u64)
        } else {
            u64::MAX
        };
        frees.push(free);
        caps.push(cap);
        assert(propose_account_error(vaults@, keys@, program_id@, proposer_bot, i as int) is None);
        assert forall|b: int| 0 <= b < 31 implies (#[trigger] seen@[b] <==> exists|j: int|
            0 <= j < i + 1 && #[trigger] vaults@[j].bot_id == b) by {
            if b == bid {
                assert(vaults@[i as int].bot_id == b);
            }
        }
        i = i + 1;
    }
    Ok(Scan { frees, caps, total_free })
}

/// Each vault's free capital is part of the sum over all vaults.
pub proof fn lemma_free_le_sum(vaults: Seq<AgentVault>, j: int, n: int)
    requires
        0 <= j < n,
    ensures
        free_of(vaults[j]) <= sum_free(vaults, n),
        sum_free(vaults, j + 1) <= sum_free(vaults, n),
    decreases n,
{
    if n > j + 1 {
        lemma_free_le_sum(vaults, j, n - 1);
    } else {
        lemma_sum_free_nonneg(vaults, j);
    }
}

/// Free-capital sums are not negative.
pub proof fn lemma_sum_free_nonneg(vaults: Seq<AgentVault>, n: int)
    ensures
        sum_free(vaults, n) >= 0,
    decreases n,
{
    if n > 0 {
        lemma_sum_free_nonneg(vaults, n - 1);
    }
}

/// Pro-rata shares never add up to more than the pool: the stakes of the
/// first `n` vaults, times the total free capital, are at most the pool times
/// those vaults' free capital.
pub proof fn lemma_shares_bound(
    vaults: Seq<AgentVault>,
    target: u64,
    total: u64,
    max_cp_bps: u16,
    n: int,
)
    requires
        0 <= n <= vaults.len(),
        total > 0,
        total == sum_free(vaults, vaults.len() as int),
    ensures
        shares_total(vaults, target, total, max_cp_bps, n) * (total as int) <= (target as int)
            * sum_free(vaults, n),
        shares_total(vaults, target, total, max_cp_bps, n) >= 0,
    decreases n,
{
    if n > 0 {
        lemma_shares_bound(vaults, target, total, max_cp_bps, n - 1);
        let f = free_of(vaults[n - 1]);
        lemma_free_le_sum(vaults, n - 1, vaults.len() as int);
        let prop = (f as int) * (target as int) / (total as int);
        assert(prop * (total as int) <= (f as int) * (target as int)) by (nonlinear_arith)
            requires
                prop == (f as int) * (target as int) / (total as int),
                total > 0,
                f >= 0,
                target >= 0,
        ;
        assert(prop <= target) by (nonlinear_arith)
            requires
                prop == (f as int) * (target as int) / (total as int),
                total > 0,
                0 <= f <= total,
                target >= 0,
        ;
        assert(prop >= 0) by (nonlinear_arith)
            requires
                prop == (f as int) * (target as int) / (total as int),
                total > 0,
                f >= 0,
                target >= 0,
        ;
        let s = cp_share(f, target, total, max_cp_bps);
        assert(s <= prop);
        assert(s * (total as int) <= prop * (total as int)) by (nonlinear_arith)
            requires
                s <= prop,
                total > 0,
        ;
        assert((target as int) * sum_free(vaults, n) == (target as int) * sum_free(vaults, n - 1)
            + (target as int) * (f as int)) by (nonlinear_arith)
            requires
                sum_free(vaults, n) == sum_free(vaults, n - 1) + f,
        ;
        assert(shares_total(vaults, target, total, max_cp_bps, n) * (total as int)
            == shares_total(vaults, target, total, max_cp_bps, n - 1) * (total as int) + s
            * (total as int)) by (nonlinear_arith)
            requires
                shares_total(vaults, target, total, max_cp_bps, n) == shares_total(
                    vaults,
                    target,
                    total,
                    max_cp_bps,
                    n - 1,
                ) + s,
        ;
    }
}

/// Stakes of all vaults for a pool at most the pool.
pub proof fn lemma_shares_le_target(
    vaults: Seq<AgentVault>,
    target: u64,
    total: u64,
    max_cp_bps: u16,
    n: int,
)
    requires
        0 <= n <= vaults.len(),
        total > 0,
        total == sum_free(vaults, vaults.len() as int),
    ensures
        0 <= shares_total(vaults, target, total, max_cp_bps, n) <= target,
{
    lemma_shares_bound(vaults, target, total, max_cp_bps, n);
    if n > 0 {
        lemma_free_le_sum(vaults, n - 1, vaults.len() as int);
    }
    lemma_sum_free_nonneg(vaults, n);
    let st = shares_total(vaults, target, total, max_cp_bps, n);
    let sf = sum_free(vaults, n);
    assert(sf <= total);
    assert(st <= target) by (nonlinear_arith)
        requires
            st * (total as int) <= (target as int) * sf,
            0 <= sf <= total,
            total > 0,
            target >= 0,
    ;
}

/// A counterparty's stake as computed on chain.
fn share(free: u64, cap: u64, target: u64, total: u64) -> (r: u64)
    requires
        free <= total,
        free > 0,
    ensures
        r == (if ((free as int) * (target as int) / (total as int)) as u64 <= cap {
            ((free as int) * (target as int) / (total as int)) as u64
        } else {
            cap
        }),
        r as int <= (free as int) * (target as int) / (total as int),
{
    assert((free as int) * (target as int) <= u128::MAX) by (nonlinear_arith)
        requires
            free <= u64::MAX,
            target <= u64::MAX,
    ;
    assert((free as int) * (target as int) / (total as int) <= target) by (nonlinear_arith)
        requires
            free <= total,
            total > 0,
    ;
    let proportional: u128 = (free as u128) * (target as u128) / (total as u128);
    let p64 = proportional as u64;
    if p64 <= cap {
        p64
    } else {
        cap
    }
}

fn capped_total(scan: &Scan, vaults: &Vec<AgentVault>, target: u64, max_cp_bps: u16) -> (r: u64)
    requires
        scan.frees@.len() == vaults@.len(),
        scan.caps@.len() == vaults@.len(),
        scan.total_free > 0,
        scan.total_free == sum_free(vaults@, vaults@.len() as int),
        forall|j: int| 0 <= j < vaults@.len() ==> #[trigger] scan.frees@[j] == free_of(vaults@[j]),
        forall|j: int|
            0 <= j < vaults@.len() ==> #[trigger] scan.caps@[j] == cp_cap(
                free_of(vaults@[j]),
                max_cp_bps,
            ),
    ensures
        r == shares_total(vaults@, target, scan.total_free, max_cp_bps, vaults@.len() as int),
{
    let n = scan.frees.len();
    let total = scan.total_free;
    let mut sum: u64 = 0;
    let mut i: usize = 0;
    while i < n
        invariant
            n == vaults@.len(),
            n == scan.frees@.len(),
            n == scan.caps@.len(),
            i <= n,
            total == scan.total_free,
            total > 0,
            total == sum_free(vaults@, vaults@.len() as int),
            forall|j: int|
                0 <= j < vaults@.len() ==> #[trigger] scan.frees@[j] == free_of(vaults@[j]),
            forall|j: int|
                0 <= j < vaults@.len() ==> #[trigger] scan.caps@[j] == cp_cap(
                    free_of(vaults@[j]),
                    max_cp_bps,
                ),
            sum == shares_total(vaults@, target, total, max_cp_bps, i as int),
        decreases n - i,
    {
        proof {
            lemma_shares_le_target(vaults@, target, total, max_cp_bps, i + 1);
            lemma_free_le_sum(vaults@, i as int, n as int);
        }
        let free = scan.frees[i];
        if free > 0 {
            let s = share(free, scan.caps[i], target, total);
            sum = sum + s;
        }
        i = i + 1;
    }
    sum
}


/// A counterparty vault with its stake locked (as exposure too).
pub open spec fn cp_after_lock(v: AgentVault, stake: u64) -> AgentVault {
    AgentVault {
        locked_sol: (v.locked_sol + stake) as u64,
        counterparty_locked_sol: (v.counterparty_locked_sol + stake) as u64,
        ..v
    }
}

/// Locking this vault's stake would overflow its exposure counter.
pub open spec fn lock_overflows(v: AgentVault, target: u64, total: u64, max_cp_bps: u16) -> bool {
    v.counterparty_locked_sol + cp_share(free_of(v), target, total, max_cp_bps) > u64::MAX
}

/// The first guard a proposal fails: the settler's signature, pausing, the
/// proposer's open bets, the duration and the direction; none when all pass.
pub fn propose_guard(
    ch: &ClearingHouseState,
    proposer: &AgentVault,
    settler: &Pubkey,
    direction: u8,
    duration_seconds: i64,
) -> (r: Option<RogueTraderError>)
    ensures
        r == propose_guard_error(*ch, *proposer, settler@, direction, duration_seconds),
{
    if !settler.key_eq(&ch.settler) {
        Some(RogueTraderError::UnauthorizedSettler)
    } else if ch.betting_paused || ch.paused {
        Some(RogueTraderError::Paused)
    } else if proposer.active_bet_count >= MAX_ACTIVE_BETS {
        Some(RogueTraderError::MaxActiveBetsReached)
    } else if duration_seconds < MIN_BET_DURATION || duration_seconds > MAX_BET_DURATION {
        Some(RogueTraderError::InvalidDuration)
    } else if direction > 1 {
        Some(RogueTraderError::InvalidDirection)
    } else {
        None
    }
}

/// A copy of the vault list.
fn copy_vaults(vaults: &Vec<AgentVault>) -> (r: Vec<AgentVault>)
    ensures
        r@ == vaults@,
{
    let mut r: Vec<AgentVault> = Vec::new();
    let mut i: usize = 0;
    while i < vaults.len()
        invariant
            i <= vaults@.len(),
            r@ == vaults@.subrange(0, i as int),
        decreases vaults@.len() - i,
    {
        r.push(vaults[i]);
        i = i + 1;
        assert(r@ =~= vaults@.subrange(0, i as int));
    }
    assert(vaults@.subrange(0, vaults@.len() as int) =~= vaults@);
    r
}

fn allocate_counterparties(
    scan: &Scan,
    vaults: &mut Vec<AgentVault>,
    target: u64,
    max_cp_bps: u16,
) -> (r: Result<([CounterpartyPosition; 29], u64), RogueTraderError>)
    requires
        old(vaults)@.len() == 29,
        scan.frees@.len() == 29,
        scan.caps@.len() == 29,
        scan.total_free == sum_free(old(vaults)@, 29),
        scan.total_free >= target,
        forall|j: int| 0 <= j < 29 ==> #[trigger] scan.frees@[j] == free_of(old(vaults)@[j]),
        forall|j: int|
            0 <= j < 29 ==> #[trigger] scan.caps@[j] == cp_cap(free_of(old(vaults)@[j]), max_cp_bps),
    ensures
        r is Err <==> exists|i: int|
            0 <= i < 29 && #[trigger] lock_overflows(
                old(vaults)@[i],
                target,
                scan.total_free,
                max_cp_bps,
            ),
        r is Err ==> r == Err::<([CounterpartyPosition; 29], u64), RogueTraderError>(
            RogueTraderError::MathOverflow,
        ),
        r matches Ok(res) ==> {
            &&& res.1 == shares_total(old(vaults)@, target, scan.total_free, max_cp_bps, 29)
            &&& final(vaults)@.len() == 29
            &&& forall|i: int|
                0 <= i < 29 ==> {
                    let st = cp_share(free_of(old(vaults)@[i]), target, scan.total_free, max_cp_bps);
                    &&& #[trigger] final(vaults)@[i] == cp_after_lock(old(vaults)@[i], st)
                    &&& final(vaults)@[i].locked_sol <= final(vaults)@[i].sol_balance
                        || final(vaults)@[i] == old(vaults)@[i]
                }
            &&& forall|i: int|
                0 <= i < 29 ==> #[trigger] res.0@[i] == (CounterpartyPosition {
                    bot_id: old(vaults)@[i].bot_id,
                    stake: cp_share(free_of(old(vaults)@[i]), target, scan.total_free, max_cp_bps),
                })
        },
{
    let ghost orig = vaults@;
    let total = scan.total_free;
    let mut positions: [CounterpartyPosition; 29] = [CounterpartyPosition::default(); 29];
    let mut actual: u64 = 0;
    let mut i: usize = 0;
    while i < 29
        invariant
            orig == old(vaults)@,
            orig.len() == 29,
            vaults@.len() == 29,
            i <= 29,
            scan.frees@.len() == 29,
            scan.caps@.len() == 29,
            total == scan.total_free,
            total == sum_free(orig, 29),
            total >= target,
            forall|j: int| 0 <= j < 29 ==> #[trigger] scan.frees@[j] == free_of(orig[j]),
            forall|j: int| 0 <= j < 29 ==> #[trigger] scan.caps@[j] == cp_cap(free_of(orig[j]), max_cp_bps),
            positions@.len() == 29,
            actual == shares_total(orig, target, total, max_cp_bps, i as int),
            forall|j: int|
                0 <= j < i ==> {
                    let st = cp_share(free_of(orig[j]), target, total, max_cp_bps);
                    &&& #[trigger] vaults@[j] == cp_after_lock(orig[j], st)
                    &&& vaults@[j].locked_sol <= vaults@[j].sol_balance || vaults@[j] == orig[j]
                },
            forall|j: int|
                0 <= j < i ==> #[trigger] positions@[j] == (CounterpartyPosition {
                    bot_id: orig[j].bot_id,
                    stake: cp_share(free_of(orig[j]), target, total, max_cp_bps),
                }),
            forall|j: int| i <= j < 29 ==> #[trigger] vaults@[j] == orig[j],
            forall|j: int| 0 <= j < i ==> !#[trigger] lock_overflows(orig[j], target, total, max_cp_bps),
        decreases 29 - i,
    {
        proof {
            lemma_free_le_sum(orig, i as int, 29);
            if total > 0 {
                lemma_shares_le_target(orig, target, total, max_cp_bps, i + 1);
            }
        }
        let v = vaults[i];
        let free = scan.frees[i];
        let stake: u64 = if free == 0 {
            0
        } else {
            share(free, scan.caps[i], target, total)
        };
        if free > 0 {
            assert((free as int) * (target as int) / (total as int) <= free) by (nonlinear_arith)
                requires
                    target <= total,
                    total > 0,
                    free >= 0,
            ;
            let mut nv = v;
            nv.locked_sol = nv.locked_sol + stake;
            nv.counterparty_locked_sol = match nv.counterparty_locked_sol.checked_add(stake) {
                Some(c) => c,
                None => {
                    assert(lock_overflows(old(vaults)@[i as int], target, total, max_cp_bps));
                    return Err(RogueTraderError::MathOverflow);
                },
            };
            vaults[i] = nv;
        } else {
            assert(cp_after_lock(v, 0) == v);
        }
        positions[i] = CounterpartyPosition { bot_id: v.bot_id, stake };
        if total == 0 {
            assert(stake == 0);
        }
        actual = actual + stake;
        i = i + 1;
    }
    Ok((positions, actual))
}


/// The first guard a proposal fails: settler signer, betting not paused, no
/// open bet beyond the limit, a duration of 30 s to 24 h, direction 0 or 1.
pub open spec fn propose_guard_error(
    ch: ClearingHouseState,
    proposer: AgentVault,
    settler: Seq<u8>,
    direction: u8,
    duration_seconds: i64,
) -> Option<RogueTraderError> {
    if settler != ch.settler@ {
        Some(RogueTraderError::UnauthorizedSettler)
    } else if ch.betting_paused || ch.paused {
        Some(RogueTraderError::Paused)
    } else if proposer.active_bet_count >= MAX_ACTIVE_BETS {
        Some(RogueTraderError::MaxActiveBetsReached)
    } else if duration_seconds < MIN_BET_DURATION || duration_seconds > MAX_BET_DURATION {
        Some(RogueTraderError::InvalidDuration)
    } else if direction > 1 {
        Some(RogueTraderError::InvalidDirection)
    } else {
        None
    }
}

/// The first check the entry price fails: decoding, feed of the proposer's
/// group, freshness, sign, confidence.
pub open spec fn entry_price_error(d: Seq<u8>, group: GroupConfig, now: i64) -> Option<ProgramError> {
    if !price_decodes(d) {
        Some(ProgramError::InvalidAccountData)
    } else if !group.spec_has_feed_id(data_feed_id(d)) {
        Some(ProgramError::Program(RogueTraderError::PythFeedNotInGroup))
    } else if price_message_error(data_publish_time(d), data_price(d), data_conf(d), now) is Some {
        Some(
            ProgramError::Program(
                price_message_error(data_publish_time(d), data_price(d), data_conf(d), now)->0,
            ),
        )
    } else {
        None
    }
}

/// Proposer probability in force for the proposal.
pub open spec fn proposal_odds(ch: ClearingHouseState, proposer: AgentVault) -> int {
    proposer.spec_proposer_odds(ch.min_odds_bps, ch.max_odds_bps, ch.odds_window_size, ch.invert_odds)
}

/// Proposer stake before the exposure cap.
pub open spec fn initial_stake(proposer: AgentVault, stake_bps: u64) -> u64 {
    proposer.spec_proposer_stake(stake_bps) as u64
}

/// Counterparty pool before the exposure cap: stake × q / p.
pub open spec fn initial_pool(ch: ClearingHouseState, proposer: AgentVault, stake_bps: u64) -> u64 {
    let p = proposal_odds(ch, proposer);
    (initial_stake(proposer, stake_bps) * (10_000 - p) / p) as u64
}

/// The capped shares fall short of the pool, so pool and stake shrink.
pub open spec fn cap_binds(vaults: Seq<AgentVault>, pool: u64, max_cp_bps: u16) -> bool {
    let total = sum_free(vaults, 29);
    &&& max_cp_bps > 0
    &&& total > 0
    &&& shares_total(vaults, pool, total as u64, max_cp_bps, 29) < pool
}

/// The pool after the exposure cap.
pub open spec fn final_pool(vaults: Seq<AgentVault>, pool: u64, max_cp_bps: u16) -> u64 {
    if cap_binds(vaults, pool, max_cp_bps) {
        shares_total(vaults, pool, sum_free(vaults, 29) as u64, max_cp_bps, 29) as u64
    } else {
        pool
    }
}

/// The proposer stake after the exposure cap: the capped pool × p / q.
pub open spec fn final_stake(vaults: Seq<AgentVault>, stake: u64, pool: u64, p: int, max_cp_bps: u16) -> u64 {
    if cap_binds(vaults, pool, max_cp_bps) {
        (shares_total(vaults, pool, sum_free(vaults, 29) as u64, max_cp_bps, 29) * p / (10_000
            - p)) as u64
    } else {
        stake
    }
}

/// The error a proposal ends with, checks in order; none on success.
pub open spec fn propose_error(
    ch: ClearingHouseState,
    proposer: AgentVault,
    group: GroupConfig,
    settler: Seq<u8>,
    d: Seq<u8>,
    now: i64,
    direction: u8,
    stake_bps: u64,
    duration_seconds: i64,
    vaults: Seq<AgentVault>,
    keys: Seq<Pubkey>,
    program_id: Seq<u8>,
) -> Option<ProgramError> {
    let p = proposal_odds(ch, proposer);
    let stake0 = initial_stake(proposer, stake_bps);
    let pool0 = initial_pool(ch, proposer, stake_bps);
    let total = sum_free(vaults, vaults.len() as int);
    let stake1 = final_stake(vaults, stake0, pool0, p, ch.max_cp_exposure_bps);
    let pool1 = final_pool(vaults, pool0, ch.max_cp_exposure_bps);
    let actual = shares_total(vaults, pool1, total as u64, ch.max_cp_exposure_bps, 29);
    if propose_guard_error(ch, proposer, settler, direction, duration_seconds) is Some {
        Some(
            ProgramError::Program(
                propose_guard_error(ch, proposer, settler, direction, duration_seconds)->0,
            ),
        )
    } else if entry_price_error(d, group, now) is Some {
        entry_price_error(d, group, now)
    } else if stake0 < MIN_STAKE {
        Some(ProgramError::Program(RogueTraderError::StakeBelowMinimum))
    } else if vaults.len() != MAX_COUNTERPARTIES {
        Some(ProgramError::Program(RogueTraderError::CounterpartyCountMismatch))
    } else if first_propose_account_error(vaults, keys, program_id, proposer.bot_id, 0) is Some {
        Some(
            ProgramError::Program(
                first_propose_account_error(vaults, keys, program_id, proposer.bot_id, 0)->0,
            ),
        )
    } else if cap_binds(vaults, pool0, ch.max_cp_exposure_bps) && stake1 < MIN_STAKE {
        Some(ProgramError::Program(RogueTraderError::StakeBelowMinimum))
    } else if total < pool1 {
        Some(ProgramError::Program(RogueTraderError::InsufficientCounterpartyLiquidity))
    } else if exists|i: int|
        0 <= i < 29 && #[trigger] lock_overflows(
            vaults[i],
            pool1,
            total as u64,
            ch.max_cp_exposure_bps,
        ) {
        Some(ProgramError::Program(RogueTraderError::MathOverflow))
    } else if now + duration_seconds > i64::MAX || ch.next_bet_id + 1 > u64::MAX
        || ch.total_bets_proposed + 1 > u64::MAX || ch.total_volume + stake1 + actual > u64::MAX {
        Some(ProgramError::Program(RogueTraderError::MathOverflow))
    } else {
        None
    }
}

/// What a successful proposal leaves: the new bet, the locked capital of the
/// proposer and of each counterparty, and the updated global counters.
pub open spec fn proposal_made(
    ch: ClearingHouseState,
    ch2: ClearingHouseState,
    proposer: AgentVault,
    proposer2: AgentVault,
    d: Seq<u8>,
    feed: Seq<u8>,
    now: i64,
    direction: u8,
    stake_bps: u64,
    duration_seconds: i64,
    bump: u8,
    vaults: Seq<AgentVault>,
    vaults2: Seq<AgentVault>,
    bet: Bet,
    event: BetProposed,
) -> bool {
    let p = proposal_odds(ch, proposer);
    let stake0 = initial_stake(proposer, stake_bps);
    let pool0 = initial_pool(ch, proposer, stake_bps);
    let total = sum_free(vaults, 29) as u64;
    let stake1 = final_stake(vaults, stake0, pool0, p, ch.max_cp_exposure_bps);
    let pool1 = final_pool(vaults, pool0, ch.max_cp_exposure_bps);
    let actual = shares_total(vaults, pool1, total, ch.max_cp_exposure_bps, 29) as u64;
    &&& bet.bet_id == ch.next_bet_id
    &&& bet.proposer_bot == proposer.bot_id
    &&& bet.pyth_feed@ == feed
    &&& bet.direction == (if direction == 0 { Direction::Long } else { Direction::Short })
    &&& bet.duration_seconds == duration_seconds
    &&& bet.proposer_stake == stake1
    &&& bet.counterparty_pool == actual
    &&& bet.win_rate_bps_at_open == p
    &&& bet.cp_count == 29
    &&& forall|i: int|
        0 <= i < 29 ==> #[trigger] bet.counterparties@[i] == (CounterpartyPosition {
            bot_id: vaults[i].bot_id,
            stake: cp_share(free_of(vaults[i]), pool1, total, ch.max_cp_exposure_bps),
        })
    &&& bet.entry_price == data_price(d)
    &&& bet.entry_conf == data_conf(d)
    &&& bet.entry_expo == data_exponent(d)
    &&& bet.entry_timestamp == now
    &&& bet.expiry_timestamp == now + duration_seconds
    &&& !bet.settled
    &&& bet.outcome == OUTCOME_PENDING
    &&& bet.exit_price == 0
    &&& bet.exit_conf == 0
    &&& bet.settle_timestamp == 0
    &&& bet.bump == bump
    &&& bet._reserved@ == Seq::new(32, |i: int| 0u8)
    &&& vaults2.len() == 29
    &&& forall|i: int|
        0 <= i < 29 ==> #[trigger] vaults2[i] == cp_after_lock(
            vaults[i],
            cp_share(free_of(vaults[i]), pool1, total, ch.max_cp_exposure_bps),
        )
    &&& proposer2 == AgentVault {
        locked_sol: (proposer.locked_sol + stake1) as u64,
        active_bet_count: (proposer.active_bet_count + 1) as u8,
        bets_proposed: (proposer.bets_proposed + 1) as u32,
        ..proposer
    }
    &&& ch2 == ClearingHouseState {
        next_bet_id: (ch.next_bet_id + 1) as u64,
        total_bets_proposed: (ch.total_bets_proposed + 1) as u64,
        total_volume: (ch.total_volume + stake1 + actual) as u64,
        ..ch
    }
    &&& event == BetProposed {
        bet_id: ch.next_bet_id,
        proposer_bot: proposer.bot_id,
        pyth_feed: bet.pyth_feed,
        direction,
        proposer_stake: stake1,
        counterparty_pool: actual,
        win_rate_bps: p as u16,
        entry_price: data_price(d),
        entry_conf: data_conf(d),
        duration_seconds,
        expiry_timestamp: (now + duration_seconds) as i64,
        timestamp: now,
    }
}

/// Propose a bet for the proposer bot: check the guards and the entry price,
/// size the stake from the Kelly input and the odds, draw the counterparty
/// pool pro rata from the 29 other bots' free capital (each share capped by
/// the exposure limit, the stake shrunk to match when the caps bind), lock
/// all stakes, and open the bet.
///
/// `vaults` are the counterparty vault accounts in order, `vault_keys` their
/// addresses, `bump` the bet account's bump. On an error nothing changes.
pub fn handler(
    ch: &mut ClearingHouseState,
    proposer: &mut AgentVault,
    group_config: &GroupConfig,
    settler: &Pubkey,
    pyth_feed: &Pubkey,
    price_data: &[u8],
    clock: &Clock,
    direction: u8,
    stake_bps: u64,
    duration_seconds: i64,
    bump: u8,
    vaults: &mut Vec<AgentVault>,
    vault_keys: &Vec<Pubkey>,
    program_id: &Pubkey,
) -> (r: Result<(Bet, BetProposed), ProgramError>)
    requires
        old(vaults)@.len() == vault_keys@.len(),
        propose_guard_error(*old(ch), *old(proposer), settler@, direction, duration_seconds) is None
            && price_decodes(price_data@) ==> group_config.feed_count <= 20,
        propose_guard_error(*old(ch), *old(proposer), settler@, direction, duration_seconds) is None
            && entry_price_error(price_data@, *group_config, clock.unix_timestamp) is None ==> {
            &&& odds_bounds_ok(old(ch).min_odds_bps, old(ch).max_odds_bps)
            &&& old(proposer).stake_products_fit(
                stake_bps,
                old(ch).min_odds_bps,
                old(ch).max_odds_bps,
                old(ch).odds_window_size,
                old(ch).invert_odds,
            )
        },
        propose_error(
            *old(ch),
            *old(proposer),
            *group_config,
            settler@,
            price_data@,
            clock.unix_timestamp,
            direction,
            stake_bps,
            duration_seconds,
            old(vaults)@,
            vault_keys@,
            program_id@,
        ) is None ==> old(proposer).bets_proposed < u32::MAX,
    ensures
        match propose_error(
            *old(ch),
            *old(proposer),
            *group_config,
            settler@,
            price_data@,
            clock.unix_timestamp,
            direction,
            stake_bps,
            duration_seconds,
            old(vaults)@,
            vault_keys@,
            program_id@,
        ) {
            Some(e) => {
                &&& r is Err && r->Err_0 == e
                &&& *final(ch) == *old(ch)
                &&& *final(proposer) == *old(proposer)
                &&& final(vaults)@ == old(vaults)@
            },
            None => r matches Ok(res) && proposal_made(
                *old(ch),
                *final(ch),
                *old(proposer),
                *final(proposer),
                price_data@,
                pyth_feed@,
                clock.unix_timestamp,
                direction,
                stake_bps,
                duration_seconds,
                bump,
                old(vaults)@,
                final(vaults)@,
                res.0,
                res.1,
            ),
        },
{
    // Guards
    if let Some(e) = propose_guard(ch, proposer, settler, direction, duration_seconds) {
        return Err(ProgramError::Program(e));
    }
    let dir = if direction == 0 {
        Direction::Long
    } else {
        Direction::Short
    };
    // Entry price
    let update = PriceUpdateV2::try_deserialize(price_data)?;
    if !group_config.has_feed_id(&update.price_message.feed_id) {
        return Err(ProgramError::Program(RogueTraderError::PythFeedNotInGroup));
    }
    let msg = match checked_price(&update, clock) {
        Ok(m) => m,
        Err(e) => {
            return Err(ProgramError::Program(e));
        },
    };
    // Odds and stake
    let min_odds = ch.min_odds_bps;
    let max_odds = ch.max_odds_bps;
    let ws = ch.odds_window_size;
    let inv = ch.invert_odds;
    let max_cp_bps = ch.max_cp_exposure_bps;
    let (p, q) = proposer.compute_odds(min_odds, max_odds, ws, inv);
    let (stake0, pool0) = proposer.apply_odds_to_stake(stake_bps, min_odds, max_odds, ws, inv);
    if stake0 < MIN_STAKE {
        return Err(ProgramError::Program(RogueTraderError::StakeBelowMinimum));
    }
    if vaults.len() != MAX_COUNTERPARTIES {
        return Err(ProgramError::Program(RogueTraderError::CounterpartyCountMismatch));
    }
    // First pass over the counterparties
    let scan = match scan_counterparties(vaults, vault_keys, program_id, proposer.bot_id, max_cp_bps) {
        Ok(s) => s,
        Err(e) => {
            return Err(ProgramError::Program(e));
        },
    };
    let total_free = scan.total_free;
    let mut proposer_stake = stake0;
    let mut pool_target = pool0;
    if max_cp_bps > 0 && total_free > 0 {
        let capped = capped_total(&scan, vaults, pool0, max_cp_bps);
        if capped < pool0 {
            proof {
                lemma_scaled_stake_le(stake0 as int, pool0 as int, capped as int, p as int, q as int);
            }
            assert((capped as int) * (p as int) <= u128::MAX) by (nonlinear_arith)
                requires
                    capped <= u64::MAX,
                    p <= 10_000,
            ;
            let scaled: u128 = (capped as u128) * (p as u128) / (q as u128);
            proposer_stake = scaled as u64;
            pool_target = capped;
            if proposer_stake < MIN_STAKE {
                return Err(ProgramError::Program(RogueTraderError::StakeBelowMinimum));
            }
        }
    }
    if total_free < pool_target {
        return Err(ProgramError::Program(RogueTraderError::InsufficientCounterpartyLiquidity));
    }
    // Second pass: lock the counterparties' stakes
    let mut work = copy_vaults(vaults);
    let (positions, actual_pool) = match allocate_counterparties(
        &scan,
        &mut work,
        pool_target,
        max_cp_bps,
    ) {
        Ok(res) => res,
        Err(e) => {
            return Err(ProgramError::Program(e));
        },
    };
    // Lock the proposer's capital
    proof {
        let free = proposer.sol_balance.saturating_sub(proposer.locked_sol);
        let capped_bps = if stake_bps < 500 { stake_bps as int } else { 500int };
        assert(free * capped_bps / 10_000 <= free) by (nonlinear_arith)
            requires
                0 <= capped_bps <= 500,
                free >= 0,
        ;
        assert(proposer_stake <= stake0);
    }
    let now = clock.unix_timestamp;
    let expiry = match now.checked_add(duration_seconds) {
        Some(t) => t,
        None => {
            return Err(ProgramError::Program(RogueTraderError::MathOverflow));
        },
    };
    let next_bet_id = match ch.next_bet_id.checked_add(1) {
        Some(x) => x,
        None => {
            return Err(ProgramError::Program(RogueTraderError::MathOverflow));
        },
    };
    let bets_proposed_total = match ch.total_bets_proposed.checked_add(1) {
        Some(x) => x,
        None => {
            return Err(ProgramError::Program(RogueTraderError::MathOverflow));
        },
    };
    let volume = match ch.total_volume.checked_add(proposer_stake) {
        Some(x) => x,
        None => {
            return Err(ProgramError::Program(RogueTraderError::MathOverflow));
        },
    };
    let total_volume = match volume.checked_add(actual_pool) {
        Some(x) => x,
        None => {
            return Err(ProgramError::Program(RogueTraderError::MathOverflow));
        },
    };
    proposer.locked_sol = proposer.locked_sol + proposer_stake;
    proposer.active_bet_count = proposer.active_bet_count + 1;
    proposer.bets_proposed = proposer.bets_proposed + 1;
    *vaults = work;
    // The bet
    let bet_id = ch.next_bet_id;
    let bet = Bet {
        bet_id,
        proposer_bot: proposer.bot_id,
        pyth_feed: *pyth_feed,
        direction: dir,
        duration_seconds,
        proposer_stake,
        counterparty_pool: actual_pool,
        win_rate_bps_at_open: p as u16,
        counterparties: positions,
        cp_count: 29,
        entry_price: msg.price,
        entry_conf: msg.conf,
        entry_expo: msg.exponent,
        entry_timestamp: now,
        expiry_timestamp: expiry,
        settled: false,
        outcome: OUTCOME_PENDING,
        exit_price: 0,
        exit_conf: 0,
        settle_timestamp: 0,
        bump,
        _reserved: [0u8; 32],
    };
    assert(bet._reserved@ =~= Seq::new(32, |i: int| 0u8));
    // Global counters
    ch.next_bet_id = next_bet_id;
    ch.total_bets_proposed = bets_proposed_total;
    ch.total_volume = total_volume;
    let event = BetProposed {
        bet_id,
        proposer_bot: bet.proposer_bot,
        pyth_feed: bet.pyth_feed,
        direction,
        proposer_stake,
        counterparty_pool: actual_pool,
        win_rate_bps: bet.win_rate_bps_at_open,
        entry_price: bet.entry_price,
        entry_conf: bet.entry_conf,
        duration_seconds,
        expiry_timestamp: expiry,
        timestamp: now,
    };
    Ok((bet, event))
}

/// When the capped shares fall short of the pool, the stake scaled to them
/// is no larger than the stake before scaling.
pub proof fn lemma_scaled_stake_le(stake: int, pool: int, capped: int, p: int, q: int)
    requires
        1 <= p <= 10_000,
        p + q == 10_000,
        stake >= 0,
        capped >= 0,
        pool == stake * q / p,
        capped < pool,
    ensures
        q > 0,
        capped * p / q <= stake,
{
    if q == 0 {
        assert(stake * q == 0);
        assert(pool == 0);
    }
    assert(pool * p <= stake * q) by (nonlinear_arith)
        requires
            pool == stake * q / p,
            p >= 1,
    ;
    assert(capped * p <= stake * q) by (nonlinear_arith)
        requires
            capped < pool,
            pool * p <= stake * q,
            p >= 1,
    ;
    assert(capped * p / q <= stake) by (nonlinear_arith)
        requires
            capped * p <= stake * q,
            q > 0,
    ;
}

} // verus!
