//! Properties of the clearing house that span its operations: conservation
//! of funds, LP pricing that cannot be gamed, solvency of the vaults, and
//! round trips between instructions.

use vstd::prelude::*;
use crate::instructions::deposit_sol::{
    DepositPlan, deposit_error, deposit_recorded, spec_lp_to_mint, spec_plan_deposit,
};
use crate::instructions::fees::{fee_share, lp_spread_of, spec_fee_split, spread_of};
use crate::instructions::withdraw_sol::{
    gross_of, spec_plan_withdraw, withdraw_error, withdrawal_recorded,
};
use crate::instructions::fees::FeeOutcome;
use crate::events::{DepositCompleted, WithdrawCompleted};
use crate::state::player_state::PlayerState;
use crate::state::agent_vault::{
    AgentVault, MINIMUM_LIQUIDITY, odds_bounds_ok, odds_ceiling, odds_floor,
};
use crate::state::clearing_house::ClearingHouseState;
use crate::state::group_config::GroupConfig;
use crate::state::bet::{Bet, Direction, OUTCOME_PROPOSER_LOST, OUTCOME_PROPOSER_WON, OUTCOME_TIE, spec_outcome};
use crate::instructions::settle_bet::{cp_after_settle, cp_gain};
use crate::instructions::expire_stale_bet::cp_after_expiry;
use crate::instructions::propose_bet::{
    cap_binds, cp_after_lock, cp_cap, cp_share, final_pool, final_stake, first_propose_account_error,
    free_of, initial_pool, initial_stake, lemma_free_le_sum, lemma_scaled_stake_le,
    lemma_shares_le_target, lemma_sum_free_nonneg, proposal_made, proposal_odds, propose_account_error,
    propose_error, shares_total, sum_free,
};
use crate::instructions::transfer_authority::{accept_error, transfer_proposed};
use crate::pubkey::{Pubkey, zero_key};
use crate::events::BetProposed;
use crate::instructions::initialize::{FeeConfig, initialize_error, split_sum};
use crate::instructions::update_config::{ConfigUpdate, config_after, config_error};
use crate::instructions::propose_bet::propose_guard_error;
use crate::instructions::settle_bet::settle_guard_error;
use crate::instructions::expire_stale_bet::expire_error;
use crate::instructions::accounts::{first_vault_account_error, position_missing, vault_account_error};
use crate::error::RogueTraderError;
use crate::instructions::draw_raffle::{lemma_max_balance_pub, max_balance, raffle_weight};

verus! {

/// The fee split conserves the amount: the vault's part and the wallets'
/// part make up the fee, and the fee never exceeds `fee_bps` of the amount.
/// When the LP part is configured no larger than the fee, the split cannot
/// fail.
pub proof fn law_fee_split_conserves(amount: u64, fee_bps: u16, spread_to_lp_bps: u16)
    ensures
        spec_fee_split(amount, fee_bps, spread_to_lp_bps) matches Some(s) ==> {
            &&& s.lp_spread + s.distribute_amount == s.total_spread
            &&& s.total_spread * 10_000 <= (amount as int) * (fee_bps as int)
        },
        fee_bps <= 10_000 && spread_to_lp_bps <= fee_bps ==> spec_fee_split(
            amount,
            fee_bps,
            spread_to_lp_bps,
        ) is Some,
{
    let t = (amount as int) * (fee_bps as int) / 10_000;
    assert(t >= 0) by (nonlinear_arith)
        requires
            t == (amount as int) * (fee_bps as int) / 10_000,
            amount >= 0,
            fee_bps >= 0,
    ;
    assert(t * 10_000 <= (amount as int) * (fee_bps as int)) by (nonlinear_arith)
        requires
            t == (amount as int) * (fee_bps as int) / 10_000,
    ;
    if fee_bps <= 10_000 {
        assert(t <= amount) by (nonlinear_arith)
            requires
                t == (amount as int) * (fee_bps as int) / 10_000,
                fee_bps <= 10_000,
                amount >= 0,
        ;
        assert(spread_of(amount, fee_bps) == t);
        if spread_to_lp_bps <= fee_bps && fee_bps > 0 {
            let tt = spread_of(amount, fee_bps) as int;
            let l = tt * (spread_to_lp_bps as int) / (fee_bps as int);
            assert(0 <= l <= tt) by (nonlinear_arith)
                requires
                    l == tt * (spread_to_lp_bps as int) / (fee_bps as int),
                    0 <= spread_to_lp_bps <= fee_bps,
                    fee_bps > 0,
                    tt >= 0,
            ;
            assert(lp_spread_of(spread_of(amount, fee_bps), spread_to_lp_bps, fee_bps) == l);
        }
    } else if t <= u64::MAX {
        assert(spread_of(amount, fee_bps) == t);
    }
}

/// A deposit splits the amount exactly: what the vault is credited plus
/// what the fee wallets get is the amount, and what LP tokens are minted
/// for plus the whole fee is the amount.
pub proof fn law_deposit_conserves(ch: ClearingHouseState, amount: u64)
    ensures
        spec_plan_deposit(ch, amount) matches Ok(p) ==> {
            &&& p.vault_credit + p.fee.distribute_amount == amount
            &&& p.lp_basis + p.fee.total_spread == amount
            &&& p.lp_basis <= p.vault_credit
        },
{
    law_fee_split_conserves(amount, ch.deposit_fee_bps, ch.spread_to_lp_bps);
}

/// Deposits cannot dilute LP holders: once the vault has LP supply and a
/// balance, the balance per LP token after a deposit is at least what it
/// was before.
pub proof fn law_deposit_does_not_dilute(ch: ClearingHouseState, v: AgentVault, amount: u64)
    requires
        v.total_lp_supply > 0,
        v.sol_balance > 0,
    ensures
        spec_plan_deposit(ch, amount) matches Ok(p) ==> (spec_lp_to_mint(
            p.lp_basis,
            v.sol_balance,
            v.total_lp_supply,
        ) matches Ok(minted) ==> (v.sol_balance + p.vault_credit) * (v.total_lp_supply as int) >= (
        v.sol_balance as int) * (v.total_lp_supply + minted)),
{
    law_deposit_conserves(ch, amount);
    if let Ok(p) = spec_plan_deposit(ch, amount) {
        if let Ok(minted) = spec_lp_to_mint(p.lp_basis, v.sol_balance, v.total_lp_supply) {
            let b = v.sol_balance as int;
            let s = v.total_lp_supply as int;
            let basis = p.lp_basis as int;
            let m = basis * s / b;
            assert(m * b <= basis * s) by (nonlinear_arith)
                requires
                    m == basis * s / b,
                    b > 0,
            ;
            assert(minted == m);
            assert(m >= 0) by (nonlinear_arith)
                requires
                    m == basis * s / b,
                    b > 0,
                    basis >= 0,
                    s >= 0,
            ;
            assert((b + p.vault_credit) * s >= b * (s + m)) by (nonlinear_arith)
                requires
                    m * b <= basis * s,
                    basis <= p.vault_credit,
                    s >= 0,
                    b >= 0,
            ;
        }
    }
}


/// Withdrawals cannot dilute the remaining LP holders: with locked capital
/// within the balance and tokens left after the burn, the effective balance
/// per LP token after a withdrawal is at least what it was before.
pub proof fn law_withdraw_does_not_dilute(ch: ClearingHouseState, v: AgentVault, lp_amount: u64)
    requires
        v.locked_sol <= v.sol_balance,
        lp_amount < v.total_lp_supply,
    ensures
        spec_plan_withdraw(ch, v, lp_amount) matches Ok(p) ==> {
            let eff = v.sol_balance - v.locked_sol;
            let debit = p.gross_sol - p.fee.lp_spread;
            &&& 0 <= debit <= eff
            &&& (eff - debit) * (v.total_lp_supply as int) >= eff * (v.total_lp_supply - lp_amount)
        },
{
    law_fee_split_conserves(
        gross_of(lp_amount, (v.sol_balance - v.locked_sol) as u64, v.total_lp_supply) as u64,
        ch.withdrawal_fee_bps,
        ch.spread_to_lp_bps,
    );
    if let Ok(p) = spec_plan_withdraw(ch, v, lp_amount) {
        let eff = (v.sol_balance - v.locked_sol) as int;
        let s = v.total_lp_supply as int;
        let l = lp_amount as int;
        let g = l * eff / s;
        assert(g * s <= l * eff) by (nonlinear_arith)
            requires
                g == l * eff / s,
                s > 0,
        ;
        assert(0 <= g <= eff) by (nonlinear_arith)
            requires
                g == l * eff / s,
                0 <= l < s,
                eff >= 0,
        ;
        assert(p.gross_sol == g);
        assert((eff - g) * s >= eff * (s - l)) by (nonlinear_arith)
            requires
                g * s <= l * eff,
                s > 0,
        ;
        assert((eff - (g - p.fee.lp_spread)) * s >= (eff - g) * s) by (nonlinear_arith)
            requires
                p.fee.lp_spread >= 0,
                s > 0,
        ;
    }
}

/// Depositing and at once withdrawing the minted LP tokens never returns
/// more SOL than was deposited (before the withdrawal fee). Excluded: a
/// first deposit into a vault that already holds a balance, where the first
/// depositor's tokens claim that balance too.
pub proof fn law_deposit_withdraw_round_trip(ch: ClearingHouseState, v: AgentVault, amount: u64)
    requires
        v.locked_sol <= v.sol_balance,
        !(v.total_lp_supply == 0 && v.sol_balance > 0),
    ensures
        spec_plan_deposit(ch, amount) matches Ok(p) ==> (spec_lp_to_mint(
            p.lp_basis,
            v.sol_balance,
            v.total_lp_supply,
        ) matches Ok(minted) ==> ({
            let new_balance = v.sol_balance + p.vault_credit;
            let new_supply = if v.total_lp_supply == 0 {
                minted + MINIMUM_LIQUIDITY
            } else {
                v.total_lp_supply + minted
            };
            (minted as int) * (new_balance - v.locked_sol) / new_supply <= amount
        })),
{
    law_deposit_conserves(ch, amount);
    if let Ok(p) = spec_plan_deposit(ch, amount) {
        if let Ok(minted) = spec_lp_to_mint(p.lp_basis, v.sol_balance, v.total_lp_supply) {
            let b = v.sol_balance as int;
            let lk = v.locked_sol as int;
            let s = v.total_lp_supply as int;
            let c = p.vault_credit as int;
            let a = amount as int;
            let basis = p.lp_basis as int;
            let m = minted as int;
            if s == 0 {
                assert(b == 0);
                assert(m + MINIMUM_LIQUIDITY == basis);
                let ns = m + MINIMUM_LIQUIDITY;
                assert(m * (b + c - lk) <= a * ns) by (nonlinear_arith)
                    requires
                        0 <= m <= ns,
                        b == 0,
                        0 <= lk <= b,
                        0 <= c <= a,
                ;
                assert(m * (b + c - lk) / ns <= a) by (nonlinear_arith)
                    requires
                        m * (b + c - lk) <= a * ns,
                        ns > 0,
                ;
            } else {
                let q = basis * s / b;
                assert(q * b <= basis * s) by (nonlinear_arith)
                    requires
                        q == basis * s / b,
                        b > 0,
                ;
                assert(q >= 0) by (nonlinear_arith)
                    requires
                        q == basis * s / b,
                        b > 0,
                        basis >= 0,
                        s >= 0,
                ;
                assert(m <= q) by {
                    if q <= u64::MAX {
                        assert(m == q);
                    } else {
                        assert(m <= u64::MAX);
                    }
                }
                let ns = s + m;
                assert(m * (b + c - lk) <= a * ns) by (nonlinear_arith)
                    requires
                        0 <= m <= q,
                        q * b <= basis * s,
                        basis <= a,
                        0 <= c <= a,
                        0 <= lk <= b,
                        s > 0,
                        b > 0,
                        ns == s + m,
                ;
                assert(m * (b + c - lk) / ns <= a) by (nonlinear_arith)
                    requires
                        m * (b + c - lk) <= a * ns,
                        ns > 0,
                ;
            }
        }
    }
}

/// Sum of the wallet shares of the fee for the five configured share rates.
pub open spec fn five_shares(fee: u64, s: (u16, u16, u16, u16, u16), total_bps: u16) -> int {
    fee_share(fee, s.0, total_bps) + fee_share(fee, s.1, total_bps) + fee_share(fee, s.2, total_bps)
        + fee_share(fee, s.3, total_bps) + fee_share(fee, s.4, total_bps)
}

proof fn lemma_share_bound(fee: u64, share: u16, total: u16)
    requires
        total > 0,
        share <= total,
    ensures
        0 <= fee_share(fee, share, total) <= fee,
        fee_share(fee, share, total) * (total as int) <= (fee as int) * (share as int),
{
    let q = (fee as int) * (share as int) / (total as int);
    assert(0 <= q <= fee) by (nonlinear_arith)
        requires
            q == (fee as int) * (share as int) / (total as int),
            0 <= share <= total,
            total > 0,
            fee >= 0,
    ;
    assert(q * (total as int) <= (fee as int) * (share as int)) by (nonlinear_arith)
        requires
            q == (fee as int) * (share as int) / (total as int),
            total > 0,
    ;
    assert(fee_share(fee, share, total) == q);
}

/// The five wallet shares never pay out more than the fee to distribute,
/// when the share rates sum to the rate they are taken out of (as the fee
/// configuration requires).
pub proof fn law_fee_shares_within_fee(fee: u64, s: (u16, u16, u16, u16, u16), total_bps: u16)
    requires
        total_bps > 0,
        s.0 + s.1 + s.2 + s.3 + s.4 == total_bps,
    ensures
        five_shares(fee, s, total_bps) <= fee,
{
    lemma_share_bound(fee, s.0, total_bps);
    lemma_share_bound(fee, s.1, total_bps);
    lemma_share_bound(fee, s.2, total_bps);
    lemma_share_bound(fee, s.3, total_bps);
    lemma_share_bound(fee, s.4, total_bps);
    let t = total_bps as int;
    let f = fee as int;
    let a0 = fee_share(fee, s.0, total_bps);
    let a1 = fee_share(fee, s.1, total_bps);
    let a2 = fee_share(fee, s.2, total_bps);
    let a3 = fee_share(fee, s.3, total_bps);
    let a4 = fee_share(fee, s.4, total_bps);
    let sum = five_shares(fee, s, total_bps);
    assert(sum == a0 + a1 + a2 + a3 + a4);
    assert(sum * t == a0 * t + a1 * t + a2 * t + a3 * t + a4 * t) by (nonlinear_arith)
        requires
            sum == a0 + a1 + a2 + a3 + a4,
    ;
    let (s0, s1, s2, s3, s4) = (s.0 as int, s.1 as int, s.2 as int, s.3 as int, s.4 as int);
    assert(f * t == f * s0 + f * s1 + f * s2 + f * s3 + f * s4) by (nonlinear_arith)
        requires
            t == s0 + s1 + s2 + s3 + s4,
    ;
    assert(sum * t <= f * t);
    assert(sum <= f) by (nonlinear_arith)
        requires
            sum * t <= f * t,
            t > 0,
    ;
}


/// Counterparty winnings of the first `n` stakes when the proposer lost.
pub open spec fn gains_total(stakes: Seq<u64>, proposer_stake: u64, cp_pool: u64, n: int) -> int
    decreases n,
{
    if n <= 0 {
        0
    } else {
        gains_total(stakes, proposer_stake, cp_pool, n - 1) + cp_gain(
            stakes[n - 1],
            proposer_stake,
            cp_pool,
        )
    }
}

/// Sum of the first `n` stakes.
pub open spec fn stakes_total(stakes: Seq<u64>, n: int) -> int
    decreases n,
{
    if n <= 0 {
        0
    } else {
        stakes_total(stakes, n - 1) + stakes[n - 1]
    }
}

proof fn lemma_gains_scaled(stakes: Seq<u64>, proposer_stake: u64, cp_pool: u64, n: int)
    requires
        0 <= n <= stakes.len(),
        cp_pool > 0,
        forall|i: int| 0 <= i < stakes.len() ==> stakes[i] <= cp_pool,
    ensures
        gains_total(stakes, proposer_stake, cp_pool, n) * (cp_pool as int) <= (proposer_stake as int)
            * stakes_total(stakes, n),
        stakes_total(stakes, n) >= 0,
    decreases n,
{
    if n > 0 {
        lemma_gains_scaled(stakes, proposer_stake, cp_pool, n - 1);
        let st = stakes[n - 1] as int;
        let ps = proposer_stake as int;
        let pool = cp_pool as int;
        let q = st * ps / pool;
        assert(0 <= q <= ps) by (nonlinear_arith)
            requires
                q == st * ps / pool,
                0 <= st <= pool,
                ps >= 0,
                pool > 0,
        ;
        assert(q * pool <= st * ps) by (nonlinear_arith)
            requires
                q == st * ps / pool,
                pool > 0,
        ;
        assert(cp_gain(stakes[n - 1], proposer_stake, cp_pool) == q);
        let g0 = gains_total(stakes, proposer_stake, cp_pool, n - 1);
        let s0 = stakes_total(stakes, n - 1);
        assert((g0 + q) * pool <= ps * (s0 + st)) by (nonlinear_arith)
            requires
                g0 * pool <= ps * s0,
                q * pool <= st * ps,
        ;
    }
}

/// Settlement creates no SOL when the proposer loses: the counterparties'
/// winnings together are at most the proposer's stake, as long as their
/// stakes add up to at most the pool.
pub proof fn law_losing_proposer_pays_at_most_stake(stakes: Seq<u64>, proposer_stake: u64, cp_pool: u64)
    requires
        cp_pool > 0,
        stakes_total(stakes, stakes.len() as int) <= cp_pool,
    ensures
        gains_total(stakes, proposer_stake, cp_pool, stakes.len() as int) <= proposer_stake,
{
    lemma_stakes_each_le_total(stakes, stakes.len() as int);
    lemma_gains_scaled(stakes, proposer_stake, cp_pool, stakes.len() as int);
    let g = gains_total(stakes, proposer_stake, cp_pool, stakes.len() as int);
    let t = stakes_total(stakes, stakes.len() as int);
    assert(g <= proposer_stake) by (nonlinear_arith)
        requires
            g * (cp_pool as int) <= (proposer_stake as int) * t,
            0 <= t <= cp_pool,
            cp_pool > 0,
            proposer_stake >= 0,
    ;
}

proof fn lemma_stakes_each_le_total(stakes: Seq<u64>, n: int)
    requires
        0 <= n <= stakes.len(),
    ensures
        forall|i: int| 0 <= i < n ==> stakes[i] <= stakes_total(stakes, n),
        stakes_total(stakes, n) >= 0,
    decreases n,
{
    if n > 0 {
        lemma_stakes_each_le_total(stakes, n - 1);
    }
}

/// A counterparty stake locked at proposal and released by a tie leaves the
/// counterparty's vault as it was.
pub proof fn law_tie_restores_counterparty(v: AgentVault, stake: u64, proposer_stake: u64, cp_pool: u64)
    requires
        v.locked_sol + stake <= u64::MAX,
        v.counterparty_locked_sol + stake <= u64::MAX,
    ensures
        cp_after_settle(cp_after_lock(v, stake), stake, OUTCOME_TIE, proposer_stake, cp_pool) == v,
{
}

/// A counterparty stake locked at proposal and released by expiry leaves
/// the counterparty's vault as it was.
pub proof fn law_expiry_restores_counterparty(v: AgentVault, stake: u64)
    requires
        v.locked_sol + stake <= u64::MAX,
        v.counterparty_locked_sol + stake <= u64::MAX,
    ensures
        cp_after_expiry(cp_after_lock(v, stake), stake) == v,
{
}

/// When the proposer wins, a counterparty that could cover its stake loses
/// exactly that stake, and its locked capital returns to what it was.
pub proof fn law_winning_proposer_takes_exact_stake(v: AgentVault, stake: u64, proposer_stake: u64, cp_pool: u64)
    requires
        v.locked_sol + stake <= u64::MAX,
        v.counterparty_locked_sol + stake <= u64::MAX,
        stake <= v.sol_balance,
    ensures
        cp_after_settle(cp_after_lock(v, stake), stake, OUTCOME_PROPOSER_WON, proposer_stake, cp_pool)
            == (AgentVault { sol_balance: (v.sol_balance - stake) as u64, ..v }),
{
}

/// Long and short bets on the same prices have opposite outcomes, and a tie
/// is a tie for both.
pub proof fn law_directions_opposite(entry: i64, exit: i64)
    ensures
        spec_outcome(Direction::Long, entry, exit) == OUTCOME_PROPOSER_WON <==> spec_outcome(
            Direction::Short,
            entry,
            exit,
        ) == OUTCOME_PROPOSER_LOST,
        spec_outcome(Direction::Long, entry, exit) == OUTCOME_PROPOSER_LOST <==> spec_outcome(
            Direction::Short,
            entry,
            exit,
        ) == OUTCOME_PROPOSER_WON,
        spec_outcome(Direction::Long, entry, exit) == OUTCOME_TIE <==> spec_outcome(
            Direction::Short,
            entry,
            exit,
        ) == OUTCOME_TIE,
{
}

/// The fee configuration is consistent: the LP part is a part of the
/// deposit fee, and the five wallet shares add up to the deposit fee, and to
/// the withdrawal fee, less the LP part.
pub open spec fn fee_config_valid(ch: ClearingHouseState) -> bool {
    let sum = split_sum(ch.referral_bps, ch.tier2_referral_bps, ch.bonus_bps, ch.nft_reward_bps, ch.platform_fee_bps);
    &&& sum == ch.deposit_fee_bps.saturating_sub(ch.spread_to_lp_bps)
    &&& sum == ch.withdrawal_fee_bps.saturating_sub(ch.spread_to_lp_bps)
    &&& ch.spread_to_lp_bps <= ch.deposit_fee_bps
}

/// Every accepted configuration change leaves the fee configuration
/// consistent.
pub proof fn law_update_config_keeps_fee_split(ch: ClearingHouseState, u: ConfigUpdate)
    ensures
        config_error(ch, u) is None ==> fee_config_valid(config_after(ch, u)),
{
}

/// An accepted initial fee configuration is consistent: its LP part is
/// within the deposit fee and its wallet shares sum to each fee less the LP
/// part.
pub proof fn law_initialize_fee_split(f: FeeConfig)
    ensures
        initialize_error(f) is None ==> {
            let sum = split_sum(
                f.referral_bps,
                f.tier2_referral_bps,
                f.bonus_bps,
                f.nft_reward_bps,
                f.platform_fee_bps,
            );
            &&& f.spread_to_lp_bps <= f.deposit_fee_bps
            &&& sum == f.deposit_fee_bps - f.spread_to_lp_bps
            &&& sum == f.withdrawal_fee_bps.saturating_sub(f.spread_to_lp_bps)
        },
{
}

/// The raffle favours bots with less capital: every bot has a positive
/// weight, and a bot with no more capital than another weighs at least as
/// much.
pub proof fn law_raffle_favours_smaller_vaults(bs: Seq<u64>, i: int, j: int)
    requires
        0 <= i < bs.len(),
        0 <= j < bs.len(),
        bs[i] <= bs[j],
    ensures
        raffle_weight(bs, i) >= raffle_weight(bs, j) >= 1,
{
    lemma_max_balance_pub(bs);
}


/// The win rate is a rate: between 0 and 100%.
proof fn lemma_win_rate_range(v: AgentVault, window_size: u8)
    ensures
        0 <= v.spec_win_rate_bps(window_size) <= 10_000,
{
    let count = v.spec_effective_count(window_size);
    let wins = if (v.wins_in_window as int) <= count { v.wins_in_window as int } else { count };
    if count != 0 {
        assert(0 <= wins * 10_000 / count <= 10_000) by (nonlinear_arith)
            requires
                0 <= wins <= count,
                count > 0,
        ;
    }
}

/// The proposer's odds stay within the configured bounds: never below the
/// floor when the floor is below the ceiling, never above the ceiling, and
/// always a probability with a positive chance for the proposer.
pub proof fn law_odds_within_bounds(
    v: AgentVault,
    min_odds_bps: u16,
    max_odds_bps: u16,
    window_size: u8,
    invert: bool,
)
    requires
        odds_bounds_ok(min_odds_bps, max_odds_bps),
    ensures
        v.spec_proposer_odds(min_odds_bps, max_odds_bps, window_size, invert) <= odds_ceiling(
            max_odds_bps,
        ),
        odds_floor(min_odds_bps) <= odds_ceiling(max_odds_bps) ==> odds_floor(min_odds_bps)
            <= v.spec_proposer_odds(min_odds_bps, max_odds_bps, window_size, invert),
        1 <= v.spec_proposer_odds(min_odds_bps, max_odds_bps, window_size, invert) <= 10_000,
{
    lemma_win_rate_range(v, window_size);
}

/// Odds follow the track record: a bot with a win rate at least another's
/// gets odds at least as high, and at most as high when the odds are
/// inverted.
pub proof fn law_odds_follow_win_rate(
    a: AgentVault,
    b: AgentVault,
    min_odds_bps: u16,
    max_odds_bps: u16,
    window_size: u8,
    invert: bool,
)
    requires
        a.spec_win_rate_bps(window_size) <= b.spec_win_rate_bps(window_size),
    ensures
        !invert ==> a.spec_proposer_odds(min_odds_bps, max_odds_bps, window_size, invert)
            <= b.spec_proposer_odds(min_odds_bps, max_odds_bps, window_size, invert),
        invert ==> a.spec_proposer_odds(min_odds_bps, max_odds_bps, window_size, invert)
            >= b.spec_proposer_odds(min_odds_bps, max_odds_bps, window_size, invert),
{
}

/// A proposal never locks more of a counterparty than its free capital or
/// its exposure cap, so a vault whose locked capital was within its balance
/// stays so (for a pool no larger than the free capital it is drawn from).
pub proof fn law_counterparty_lock_within_free(
    v: AgentVault,
    target: u64,
    total: u64,
    max_cp_bps: u16,
)
    requires
        v.locked_sol <= v.sol_balance,
        free_of(v) <= total,
        target <= total,
    ensures
        cp_share(free_of(v), target, total, max_cp_bps) <= free_of(v),
        cp_share(free_of(v), target, total, max_cp_bps) <= cp_cap(free_of(v), max_cp_bps),
        cp_after_lock(v, cp_share(free_of(v), target, total, max_cp_bps)).locked_sol
            <= v.sol_balance,
{
    let f = free_of(v) as int;
    if f != 0 {
        assert(f * (target as int) / (total as int) <= f) by (nonlinear_arith)
            requires
                0 < f <= total,
                0 <= target <= total,
        ;
    }
}

/// A proposal locks at most 5% of the proposer's free capital: the stake
/// sized from the Kelly input is capped at 500 bps of the free capital, and
/// shrinking it to the counterparties' capped pool only lowers it.
pub proof fn law_proposer_stake_capped(
    ch: ClearingHouseState,
    proposer: AgentVault,
    stake_bps: u64,
    vaults: Seq<AgentVault>,
)
    requires
        odds_bounds_ok(ch.min_odds_bps, ch.max_odds_bps),
        proposer.stake_products_fit(
            stake_bps,
            ch.min_odds_bps,
            ch.max_odds_bps,
            ch.odds_window_size,
            ch.invert_odds,
        ),
    ensures
        final_stake(
            vaults,
            initial_stake(proposer, stake_bps),
            initial_pool(ch, proposer, stake_bps),
            proposal_odds(ch, proposer),
            ch.max_cp_exposure_bps,
        ) <= initial_stake(proposer, stake_bps),
        initial_stake(proposer, stake_bps) <= (free_of(proposer) as int) * 500 / 10_000,
{
    let free = free_of(proposer) as int;
    let capped = if (stake_bps as int) <= 500 { stake_bps as int } else { 500 };
    assert(free * capped / 10_000 <= free * 500 / 10_000) by (nonlinear_arith)
        requires
            0 <= capped <= 500,
            free >= 0,
    ;
    assert(free * 500 / 10_000 <= free) by (nonlinear_arith)
        requires
            free >= 0,
    ;
    assert(free * capped / 10_000 >= 0) by (nonlinear_arith)
        requires
            0 <= capped,
            free >= 0,
    ;
    assert(proposer.spec_proposer_stake(stake_bps) == free * capped / 10_000);
    law_odds_within_bounds(
        proposer,
        ch.min_odds_bps,
        ch.max_odds_bps,
        ch.odds_window_size,
        ch.invert_odds,
    );
    let p = proposal_odds(ch, proposer);
    let stake = initial_stake(proposer, stake_bps) as int;
    let pool = initial_pool(ch, proposer, stake_bps) as int;
    assert(0 <= stake * (10_000 - p) / p <= stake * (10_000 - p)) by (nonlinear_arith)
        requires
            stake >= 0,
            1 <= p <= 10_000,
    ;
    assert(pool == stake * (10_000 - p) / p);
    if cap_binds(vaults, initial_pool(ch, proposer, stake_bps), ch.max_cp_exposure_bps) {
        let total = sum_free(vaults, 29) as u64;
        let capped = shares_total(
            vaults,
            initial_pool(ch, proposer, stake_bps),
            total,
            ch.max_cp_exposure_bps,
            29,
        );
        lemma_shares_total_nonneg(
            vaults,
            initial_pool(ch, proposer, stake_bps),
            total,
            ch.max_cp_exposure_bps,
            29,
        );
        lemma_scaled_stake_le(stake, pool, capped, p, 10_000 - p);
    }
}

/// Stakes are never negative, so neither is their sum.
proof fn lemma_shares_total_nonneg(
    vaults: Seq<AgentVault>,
    target: u64,
    total: u64,
    max_cp_bps: u16,
    n: int,
)
    ensures
        shares_total(vaults, target, total, max_cp_bps, n) >= 0,
    decreases n,
{
    if n > 0 {
        lemma_shares_total_nonneg(vaults, target, total, max_cp_bps, n - 1);
    }
}


/// The authority moves only in two steps: once a non-empty key is named,
/// that key and no other can accept, and accepting hands it the authority.
pub proof fn law_two_step_authority_transfer(
    ch: ClearingHouseState,
    new_authority: Pubkey,
    signer: Pubkey,
)
    requires
        new_authority@ != zero_key(),
    ensures
        accept_error(transfer_proposed(ch, new_authority), new_authority) is None,
        signer@ != new_authority@ ==> accept_error(transfer_proposed(ch, new_authority), signer)
            == Some(crate::error::RogueTraderError::InvalidPendingAuthority),
        transfer_proposed(ch, new_authority).authority == ch.authority,
{
}

/// Nobody can take over the authority while no transfer is pending.
pub proof fn law_no_takeover_without_transfer(ch: ClearingHouseState, signer: Pubkey)
    requires
        ch.pending_authority@ == zero_key(),
    ensures
        accept_error(ch, signer) is Some,
{
}


/// The stakes of a bet's positions, in slot order.
pub open spec fn position_stakes(bet: Bet) -> Seq<u64> {
    Seq::new(29, |i: int| bet.counterparties@[i].stake)
}

/// Every account check that passes from `i` on passes for each later account.
proof fn lemma_no_account_error_after(
    vaults: Seq<AgentVault>,
    keys: Seq<Pubkey>,
    program_id: Seq<u8>,
    proposer_bot: u8,
    i: int,
    j: int,
)
    requires
        0 <= i <= j < vaults.len(),
        first_propose_account_error(vaults, keys, program_id, proposer_bot, i) is None,
    ensures
        propose_account_error(vaults, keys, program_id, proposer_bot, j) is None,
    decreases j - i,
{
    if i < j {
        lemma_no_account_error_after(vaults, keys, program_id, proposer_bot, i + 1, j);
    }
}

/// With no free capital anywhere every share is zero.
proof fn lemma_shares_zero_without_capital(
    vaults: Seq<AgentVault>,
    target: u64,
    total: u64,
    max_cp_bps: u16,
    n: int,
)
    requires
        0 <= n <= vaults.len(),
        sum_free(vaults, vaults.len() as int) == 0,
    ensures
        shares_total(vaults, target, total, max_cp_bps, n) == 0,
    decreases n,
{
    if n > 0 {
        lemma_shares_zero_without_capital(vaults, target, total, max_cp_bps, n - 1);
        lemma_free_le_sum(vaults, n - 1, vaults.len() as int);
    }
}

/// The first `n` position stakes are the first `n` vaults' shares.
proof fn lemma_positions_are_shares(
    bet: Bet,
    vaults: Seq<AgentVault>,
    target: u64,
    total: u64,
    max_cp_bps: u16,
    n: int,
)
    requires
        0 <= n <= 29,
        forall|i: int|
            0 <= i < 29 ==> #[trigger] bet.counterparties@[i].stake == cp_share(
                free_of(vaults[i]),
                target,
                total,
                max_cp_bps,
            ),
    ensures
        stakes_total(position_stakes(bet), n) == shares_total(vaults, target, total, max_cp_bps, n),
    decreases n,
{
    if n > 0 {
        lemma_positions_are_shares(bet, vaults, target, total, max_cp_bps, n - 1);
        assert(bet.counterparties@[n - 1].stake == cp_share(free_of(vaults[n - 1]), target, total, max_cp_bps));
    }
}

/// A proposal funds its counterparty pool exactly and safely: the 29
/// position stakes add up to the bet's counterparty pool, each stake is
/// within its counterparty's free capital, and so settling the bet with the
/// proposer losing pays the counterparties at most the proposer's stake.
pub proof fn law_proposal_positions_fund_pool(
    ch: ClearingHouseState,
    ch2: ClearingHouseState,
    proposer: AgentVault,
    proposer2: AgentVault,
    group: GroupConfig,
    settler: Seq<u8>,
    d: Seq<u8>,
    feed: Seq<u8>,
    now: i64,
    direction: u8,
    stake_bps: u64,
    duration_seconds: i64,
    bump: u8,
    vaults: Seq<AgentVault>,
    vaults2: Seq<AgentVault>,
    keys: Seq<Pubkey>,
    program_id: Seq<u8>,
    bet: Bet,
    event: BetProposed,
)
    requires
        propose_error(
            ch,
            proposer,
            group,
            settler,
            d,
            now,
            direction,
            stake_bps,
            duration_seconds,
            vaults,
            keys,
            program_id,
        ) is None,
        proposal_made(
            ch,
            ch2,
            proposer,
            proposer2,
            d,
            feed,
            now,
            direction,
            stake_bps,
            duration_seconds,
            bump,
            vaults,
            vaults2,
            bet,
            event,
        ),
    ensures
        stakes_total(position_stakes(bet), 29) == bet.counterparty_pool,
        forall|i: int| 0 <= i < 29 ==> #[trigger] position_stakes(bet)[i] <= free_of(vaults[i]),
        bet.counterparty_pool > 0 ==> gains_total(
            position_stakes(bet),
            bet.proposer_stake,
            bet.counterparty_pool,
            29,
        ) <= bet.proposer_stake,
{
    let p0 = initial_pool(ch, proposer, stake_bps);
    let pool1 = final_pool(vaults, p0, ch.max_cp_exposure_bps);
    let total_int = sum_free(vaults, 29);
    let total = total_int as u64;
    let max = ch.max_cp_exposure_bps;
    assert(vaults.len() == 29);
    lemma_no_account_error_after(vaults, keys, program_id, proposer.bot_id, 0, 28);
    lemma_sum_free_nonneg(vaults, 29);
    assert(total as int == total_int);
    assert(pool1 <= total);
    lemma_positions_are_shares(bet, vaults, pool1, total, max, 29);
    if total_int == 0 {
        lemma_shares_zero_without_capital(vaults, pool1, total, max, 29);
    } else {
        lemma_shares_le_target(vaults, pool1, total, max, 29);
    }
    assert forall|i: int| 0 <= i < 29 implies #[trigger] position_stakes(bet)[i] <= free_of(vaults[i]) by {
        lemma_free_le_sum(vaults, i, 29);
        assert(bet.counterparties@[i].stake == cp_share(free_of(vaults[i]), pool1, total, max));
        let v = vaults[i];
        let f = free_of(v) as int;
        if f != 0 {
            assert(f * (pool1 as int) / (total as int) <= f) by (nonlinear_arith)
                requires
                    0 < f <= total,
                    0 <= pool1 <= total,
            ;
        }
    }
    if bet.counterparty_pool > 0 {
        law_losing_proposer_pays_at_most_stake(
            position_stakes(bet),
            bet.proposer_stake,
            bet.counterparty_pool,
        );
    }
}


/// A recorded deposit cannot dilute LP holders: when a vault with LP supply
/// takes a deposit, its SOL per LP token afterwards is at least what it was
/// before.
pub proof fn law_deposit_handler_does_not_dilute(
    ch0: ClearingHouseState,
    v0: AgentVault,
    p0: PlayerState,
    ch1: ClearingHouseState,
    v1: AgentVault,
    p1: PlayerState,
    amount: u64,
    fees: FeeOutcome,
    depositor: Pubkey,
    player_bump: u8,
    now: i64,
    ev: DepositCompleted,
)
    requires
        v0.total_lp_supply > 0,
        deposit_error(ch0, v0, p0, amount) is None,
        deposit_recorded(
            ch0,
            v0,
            p0,
            ch1,
            v1,
            p1,
            spec_plan_deposit(ch0, amount)->Ok_0,
            spec_lp_to_mint(
                spec_plan_deposit(ch0, amount)->Ok_0.lp_basis,
                v0.sol_balance,
                v0.total_lp_supply,
            )->Ok_0,
            fees,
            depositor,
            player_bump,
            now,
            ev,
        ),
    ensures
        (v1.sol_balance as int) * (v0.total_lp_supply as int) >= (v0.sol_balance as int) * (
        v1.total_lp_supply as int),
{
    law_deposit_does_not_dilute(ch0, v0, amount);
}

/// A recorded withdrawal cannot dilute the remaining LP holders: with locked
/// capital within the balance and tokens left after the burn, the free SOL
/// per LP token afterwards is at least what it was before.
pub proof fn law_withdraw_handler_does_not_dilute(
    ch0: ClearingHouseState,
    v0: AgentVault,
    p0: PlayerState,
    ch1: ClearingHouseState,
    v1: AgentVault,
    p1: PlayerState,
    lp_amount: u64,
    fees: FeeOutcome,
    withdrawer: Pubkey,
    player_bump: u8,
    now: i64,
    ev: WithdrawCompleted,
)
    requires
        v0.locked_sol <= v0.sol_balance,
        lp_amount < v0.total_lp_supply,
        withdraw_error(ch0, v0, p0, lp_amount) is None,
        withdrawal_recorded(
            ch0,
            v0,
            p0,
            ch1,
            v1,
            p1,
            spec_plan_withdraw(ch0, v0, lp_amount)->Ok_0,
            fees,
            withdrawer,
            player_bump,
            now,
            ev,
        ),
    ensures
        v1.locked_sol == v0.locked_sol,
        v1.locked_sol <= v1.sol_balance,
        ((v1.sol_balance - v1.locked_sol) as int) * (v0.total_lp_supply as int) >= ((v0.sol_balance
            - v0.locked_sol) as int) * (v1.total_lp_supply as int),
{
    law_withdraw_does_not_dilute(ch0, v0, lp_amount);
}


/// Sum of the balances of the first `n` vaults.
pub open spec fn balances_total(vs: Seq<AgentVault>, n: int) -> int
    decreases n,
{
    if n <= 0 {
        0
    } else {
        balances_total(vs, n - 1) + vs[n - 1].sol_balance
    }
}

/// The counterparties' vaults after settlement, each with its stake.
pub open spec fn settled_vaults(
    vs: Seq<AgentVault>,
    stakes: Seq<u64>,
    outcome: u8,
    proposer_stake: u64,
    cp_pool: u64,
) -> Seq<AgentVault> {
    Seq::new(vs.len(), |i: int| cp_after_settle(vs[i], stakes[i], outcome, proposer_stake, cp_pool))
}

/// When the proposer wins, the counterparties together lose exactly their
/// stakes, which is what the proposer is credited when the stakes make up
/// the pool: settlement moves SOL and creates none (for counterparties whose
/// balances cover their stakes).
pub proof fn law_winning_settlement_moves_stakes(
    vs: Seq<AgentVault>,
    stakes: Seq<u64>,
    proposer_stake: u64,
    cp_pool: u64,
)
    requires
        vs.len() == stakes.len(),
        forall|i: int| 0 <= i < vs.len() ==> #[trigger] stakes[i] <= vs[i].sol_balance,
    ensures
        balances_total(vs, vs.len() as int) - balances_total(
            settled_vaults(vs, stakes, OUTCOME_PROPOSER_WON, proposer_stake, cp_pool),
            vs.len() as int,
        ) == stakes_total(stakes, stakes.len() as int),
{
    lemma_win_sums(vs, stakes, proposer_stake, cp_pool, vs.len() as int);
}

proof fn lemma_win_sums(vs: Seq<AgentVault>, stakes: Seq<u64>, proposer_stake: u64, cp_pool: u64, n: int)
    requires
        0 <= n <= vs.len(),
        vs.len() == stakes.len(),
        forall|i: int| 0 <= i < vs.len() ==> #[trigger] stakes[i] <= vs[i].sol_balance,
    ensures
        balances_total(vs, n) - balances_total(
            settled_vaults(vs, stakes, OUTCOME_PROPOSER_WON, proposer_stake, cp_pool),
            n,
        ) == stakes_total(stakes, n),
    decreases n,
{
    if n > 0 {
        lemma_win_sums(vs, stakes, proposer_stake, cp_pool, n - 1);
        assert(stakes[n - 1] <= vs[n - 1].sol_balance);
    }
}

/// A proposal's duration is accepted exactly from 30 s to 24 h: once the
/// settler signs, betting is open and the bot has no open bet, the guard
/// refuses with `InvalidDuration` exactly the durations outside 30..=86_400
/// seconds, and with a valid direction it passes every duration inside.
pub proof fn law_proposal_duration_range(
    ch: ClearingHouseState,
    proposer: AgentVault,
    settler: Seq<u8>,
    direction: u8,
    duration_seconds: i64,
)
    requires
        settler == ch.settler@,
        !ch.betting_paused,
        !ch.paused,
        proposer.active_bet_count == 0,
    ensures
        propose_guard_error(ch, proposer, settler, direction, duration_seconds) == Some(
            RogueTraderError::InvalidDuration,
        ) <==> !(30 <= duration_seconds <= 86_400),
        direction <= 1 ==> (propose_guard_error(ch, proposer, settler, direction, duration_seconds)
            is None <==> 30 <= duration_seconds <= 86_400),
{
}

/// The stale-bet buffer in force, as configured: the clearing house's
/// buffer when positive, else two minutes.
pub open spec fn configured_buffer(ch: ClearingHouseState) -> int {
    if ch.stale_bet_buffer_secs > 0 {
        ch.stale_bet_buffer_secs as int
    } else {
        120
    }
}

/// Settlement stays open until the configured buffer past expiry: for an
/// expired, unsettled bet signed by the settler, the guard refuses with
/// `SettlementWindowExpired` exactly when `now` is past expiry plus the
/// buffer (the clearing house's when positive, else 120 s), and with the
/// bet's feed it passes at every time up to that deadline.
pub proof fn law_settlement_window(
    ch: ClearingHouseState,
    proposer: AgentVault,
    bet: Bet,
    settler: Seq<u8>,
    feed: Seq<u8>,
    now: i64,
)
    requires
        proposer.bot_id == bet.proposer_bot,
        settler == ch.settler@,
        !bet.settled,
        now >= bet.expiry_timestamp,
        bet.expiry_timestamp + configured_buffer(ch) <= i64::MAX,
    ensures
        settle_guard_error(ch, proposer, bet, settler, feed, now) == Some(
            RogueTraderError::SettlementWindowExpired,
        ) <==> now > bet.expiry_timestamp + configured_buffer(ch),
        feed == bet.pyth_feed@ && now <= bet.expiry_timestamp + configured_buffer(ch)
            ==> settle_guard_error(ch, proposer, bet, settler, feed, now) is None,
{
}

/// The counterparty account checks only ever report a bad or a repeated
/// vault account.
proof fn lemma_vault_account_errors(vaults: Seq<AgentVault>, keys: Seq<Pubkey>, program_id: Seq<u8>, i: int)
    ensures
        first_vault_account_error(vaults, keys, program_id, i) is None || first_vault_account_error(
            vaults,
            keys,
            program_id,
            i,
        ) == Some(RogueTraderError::InvalidCounterpartyVault) || first_vault_account_error(
            vaults,
            keys,
            program_id,
            i,
        ) == Some(RogueTraderError::DuplicateCounterparty),
    decreases vaults.len() - i,
{
    if 0 <= i < vaults.len() && vault_account_error(vaults, keys, program_id, i) is None {
        lemma_vault_account_errors(vaults, keys, program_id, i + 1);
    }
}

/// A stale bet can be expired as soon as the configured buffer past expiry
/// has elapsed: for an unsettled bet of the proposer, signed by the
/// authority or the settler, expiry is refused with
/// `StaleBetBufferNotElapsed` exactly when `now` is before expiry plus the
/// buffer (the clearing house's when positive, else 120 s).
pub proof fn law_expiry_after_buffer(
    ch: ClearingHouseState,
    proposer: AgentVault,
    bet: Bet,
    signer: Seq<u8>,
    now: i64,
    vaults: Seq<AgentVault>,
    keys: Seq<Pubkey>,
    program_id: Seq<u8>,
)
    requires
        proposer.bot_id == bet.proposer_bot,
        signer == ch.authority@ || signer == ch.settler@,
        !bet.settled,
    ensures
        expire_error(ch, proposer, bet, signer, now, vaults, keys, program_id) == Some(
            RogueTraderError::StaleBetBufferNotElapsed,
        ) <==> now < bet.expiry_timestamp + configured_buffer(ch),
{
    lemma_vault_account_errors(vaults, keys, program_id, 0);
}

/// No unsettled bet is ever stuck: at every time after its expiry, either
/// the settler can still settle it (the window has not closed) or it can be
/// expired (the buffer has elapsed); once settlement is refused as too
/// late, expiry is not refused as too early.
pub proof fn law_expired_bet_never_stuck(
    ch: ClearingHouseState,
    proposer: AgentVault,
    bet: Bet,
    feed: Seq<u8>,
    signer: Seq<u8>,
    now: i64,
    vaults: Seq<AgentVault>,
    keys: Seq<Pubkey>,
    program_id: Seq<u8>,
)
    requires
        proposer.bot_id == bet.proposer_bot,
        signer == ch.authority@ || signer == ch.settler@,
        !bet.settled,
        now >= bet.expiry_timestamp,
        bet.expiry_timestamp + configured_buffer(ch) <= i64::MAX,
    ensures
        settle_guard_error(ch, proposer, bet, ch.settler@, feed, now) != Some(
            RogueTraderError::SettlementWindowExpired,
        ) || expire_error(ch, proposer, bet, signer, now, vaults, keys, program_id) != Some(
            RogueTraderError::StaleBetBufferNotElapsed,
        ),
        settle_guard_error(ch, proposer, bet, ch.settler@, feed, now) == Some(
            RogueTraderError::SettlementWindowExpired,
        ) ==> expire_error(ch, proposer, bet, signer, now, vaults, keys, program_id) != Some(
            RogueTraderError::StaleBetBufferNotElapsed,
        ),
{
    law_settlement_window(ch, proposer, bet, ch.settler@, feed, now);
    law_expiry_after_buffer(ch, proposer, bet, signer, now, vaults, keys, program_id);
}

/// An update that changes only the odds window length to `v`.
pub open spec fn window_size_update(v: u8) -> ConfigUpdate {
    ConfigUpdate {
        deposit_fee_bps: None,
        withdrawal_fee_bps: None,
        referral_bps: None,
        tier2_referral_bps: None,
        bonus_bps: None,
        nft_reward_bps: None,
        platform_fee_bps: None,
        platform_wallet: None,
        bonus_wallet: None,
        nft_rewarder: None,
        settler: None,
        vault_lookup_table: None,
        min_odds_bps: None,
        max_odds_bps: None,
        odds_window_size: Some(v),
        invert_odds: None,
        spread_to_lp_bps: None,
        max_cp_exposure_bps: None,
        stale_bet_buffer_secs: None,
    }
}

/// On a configuration whose LP part fits in the deposit fee and whose
/// wallet shares sum to each fee less the LP part, setting the odds window
/// length alone succeeds for every length 1..=100, changing that setting
/// and nothing else, and is refused with `InvalidConfig` for every other
/// length.
pub proof fn law_window_size_update(ch: ClearingHouseState, v: u8)
    requires
        ch.spread_to_lp_bps <= ch.deposit_fee_bps,
        ch.referral_bps + ch.tier2_referral_bps + ch.bonus_bps + ch.nft_reward_bps
            + ch.platform_fee_bps == ch.deposit_fee_bps - ch.spread_to_lp_bps,
        ch.referral_bps + ch.tier2_referral_bps + ch.bonus_bps + ch.nft_reward_bps
            + ch.platform_fee_bps == ch.withdrawal_fee_bps - ch.spread_to_lp_bps,
    ensures
        1 <= v <= 100 ==> config_error(ch, window_size_update(v)) is None && config_after(
            ch,
            window_size_update(v),
        ) == (ClearingHouseState { odds_window_size: v, ..ch }),
        !(1 <= v <= 100) ==> config_error(ch, window_size_update(v)) == Some(
            RogueTraderError::InvalidConfig,
        ),
{
}

/// The given value of a setting, or `d` when the update leaves it.
pub open spec fn given_or<T>(o: Option<T>, d: T) -> T {
    match o {
        Some(v) => v,
        None => d,
    }
}

/// An update is refused with `InvalidConfig` exactly when a given setting
/// lies outside its documented range: a deposit or withdrawal fee above
/// 1000 bps, an odds bound above 10_000 bps, a window length outside
/// 1..=100, an LP part above the deposit fee in force after the update, an
/// exposure cap above 10_000 bps, or a stale-bet buffer outside 0..=600 s.
pub proof fn law_config_ranges(ch: ClearingHouseState, u: ConfigUpdate)
    ensures
        config_error(ch, u) == Some(RogueTraderError::InvalidConfig) <==> {
            ||| (u.deposit_fee_bps is Some && u.deposit_fee_bps->0 > 1000)
            ||| (u.withdrawal_fee_bps is Some && u.withdrawal_fee_bps->0 > 1000)
            ||| (u.min_odds_bps is Some && u.min_odds_bps->0 > 10_000)
            ||| (u.max_odds_bps is Some && u.max_odds_bps->0 > 10_000)
            ||| (u.odds_window_size is Some && (u.odds_window_size->0 < 1 || u.odds_window_size->0
                > 100))
            ||| given_or(u.spread_to_lp_bps, ch.spread_to_lp_bps) > given_or(
                u.deposit_fee_bps,
                ch.deposit_fee_bps,
            )
            ||| (u.max_cp_exposure_bps is Some && u.max_cp_exposure_bps->0 > 10_000)
            ||| (u.stale_bet_buffer_secs is Some && (u.stale_bet_buffer_secs->0 < 0
                || u.stale_bet_buffer_secs->0 > 600))
        },
{
}

/// On a configuration whose LP part fits in the deposit fee and whose
/// wallet shares sum to each fee less the LP part, an update that leaves
/// every fee setting alone succeeds exactly when each odds, window,
/// exposure and buffer setting it gives is in range, and then sets exactly
/// the given settings.
pub proof fn law_non_fee_settings_update(ch: ClearingHouseState, u: ConfigUpdate)
    requires
        ch.spread_to_lp_bps <= ch.deposit_fee_bps,
        ch.referral_bps + ch.tier2_referral_bps + ch.bonus_bps + ch.nft_reward_bps
            + ch.platform_fee_bps == ch.deposit_fee_bps - ch.spread_to_lp_bps,
        ch.referral_bps + ch.tier2_referral_bps + ch.bonus_bps + ch.nft_reward_bps
            + ch.platform_fee_bps == ch.withdrawal_fee_bps - ch.spread_to_lp_bps,
        u.deposit_fee_bps is None,
        u.withdrawal_fee_bps is None,
        u.referral_bps is None,
        u.tier2_referral_bps is None,
        u.bonus_bps is None,
        u.nft_reward_bps is None,
        u.platform_fee_bps is None,
        u.spread_to_lp_bps is None,
    ensures
        config_error(ch, u) is None <==> {
            &&& (u.min_odds_bps is Some ==> u.min_odds_bps->0 <= 10_000)
            &&& (u.max_odds_bps is Some ==> u.max_odds_bps->0 <= 10_000)
            &&& (u.odds_window_size is Some ==> 1 <= u.odds_window_size->0 <= 100)
            &&& (u.max_cp_exposure_bps is Some ==> u.max_cp_exposure_bps->0 <= 10_000)
            &&& (u.stale_bet_buffer_secs is Some ==> 0 <= u.stale_bet_buffer_secs->0 <= 600)
        },
        config_error(ch, u) is None ==> config_after(ch, u) == (ClearingHouseState {
            platform_wallet: given_or(u.platform_wallet, ch.platform_wallet),
            bonus_wallet: given_or(u.bonus_wallet, ch.bonus_wallet),
            nft_rewarder: given_or(u.nft_rewarder, ch.nft_rewarder),
            settler: given_or(u.settler, ch.settler),
            vault_lookup_table: given_or(u.vault_lookup_table, ch.vault_lookup_table),
            min_odds_bps: given_or(u.min_odds_bps, ch.min_odds_bps),
            max_odds_bps: given_or(u.max_odds_bps, ch.max_odds_bps),
            odds_window_size: given_or(u.odds_window_size, ch.odds_window_size),
            invert_odds: given_or(u.invert_odds, ch.invert_odds),
            max_cp_exposure_bps: given_or(u.max_cp_exposure_bps, ch.max_cp_exposure_bps),
            stale_bet_buffer_secs: given_or(u.stale_bet_buffer_secs, ch.stale_bet_buffer_secs),
            ..ch
        }),
{
}

/// A proposal passes its guard exactly when the settler signs, betting is
/// open, the bot has no open bet, the duration is 30 s to 24 h and the
/// direction is long (0) or short (1).
pub proof fn law_proposal_guard_passes(
    ch: ClearingHouseState,
    proposer: AgentVault,
    settler: Seq<u8>,
    direction: u8,
    duration_seconds: i64,
)
    ensures
        propose_guard_error(ch, proposer, settler, direction, duration_seconds) is None <==> {
            &&& settler == ch.settler@
            &&& !ch.betting_paused
            &&& !ch.paused
            &&& proposer.active_bet_count == 0
            &&& 30 <= duration_seconds <= 86_400
            &&& direction <= 1
        },
{
}

/// A settlement passes its guard exactly when the vault is the bet's
/// proposer's, the settler signs, the bet is unsettled, `now` lies from
/// expiry to expiry plus the configured buffer, and the price account is
/// the bet's feed.
pub proof fn law_settle_guard_passes(
    ch: ClearingHouseState,
    proposer: AgentVault,
    bet: Bet,
    settler: Seq<u8>,
    feed: Seq<u8>,
    now: i64,
)
    requires
        bet.expiry_timestamp + configured_buffer(ch) <= i64::MAX,
    ensures
        settle_guard_error(ch, proposer, bet, settler, feed, now) is None <==> {
            &&& proposer.bot_id == bet.proposer_bot
            &&& settler == ch.settler@
            &&& !bet.settled
            &&& bet.expiry_timestamp <= now <= bet.expiry_timestamp + configured_buffer(ch)
            &&& feed == bet.pyth_feed@
        },
{
}

/// An expiry passes exactly when the vault is the bet's proposer's, the
/// authority or the settler signs, the bet is unsettled, the configured
/// buffer past expiry has elapsed, and the counterparty accounts pass their
/// checks with every staked vault present.
pub proof fn law_expire_passes(
    ch: ClearingHouseState,
    proposer: AgentVault,
    bet: Bet,
    signer: Seq<u8>,
    now: i64,
    vaults: Seq<AgentVault>,
    keys: Seq<Pubkey>,
    program_id: Seq<u8>,
)
    ensures
        expire_error(ch, proposer, bet, signer, now, vaults, keys, program_id) is None <==> {
            &&& proposer.bot_id == bet.proposer_bot
            &&& (signer == ch.authority@ || signer == ch.settler@)
            &&& !bet.settled
            &&& now >= bet.expiry_timestamp + configured_buffer(ch)
            &&& first_vault_account_error(vaults, keys, program_id, 0) is None
            &&& !position_missing(bet, vaults)
        },
{
}

} // verus!
