//! Withdrawals: a user burns LP tokens and receives SOL, priced on the
//! vault's effective balance (locked capital excluded), minus the
//! withdrawal fee.

use vstd::prelude::*;
use crate::error::RogueTraderError;
use crate::events::WithdrawCompleted;
use crate::instructions::fees::{
    FeeOutcome,
    FeeSplit,
    fee_split,
    fee_stats_after,
    record_fee_stats,
    referral_paid_fits,
    spec_fee_split,
};
use crate::pubkey::{Pubkey, zero_key};
use crate::state::agent_vault::AgentVault;
use crate::state::clearing_house::ClearingHouseState;
use crate::state::player_state::PlayerState;

verus! {

/// The figures of a withdrawal before any transfer.
#[derive(Clone, Copy, Debug, PartialEq, Eq, Structural)]
pub struct WithdrawPlan {
    pub lp_amount: u64,
    /// SOL the burned tokens are worth at the effective balance.
    pub gross_sol: u64,
    pub fee: FeeSplit,
    /// SOL paid to the user: gross less the whole fee.
    pub net_sol: u64,
}

/// SOL `lp_amount` tokens are worth: their share of the effective balance.
pub open spec fn gross_of(lp_amount: u64, effective: u64, supply: u64) -> int {
    (lp_amount as int) * (effective as int) / (supply as int)
}

/// The withdrawal's figures, or the error it stops with: withdrawals
/// paused, a zero amount, no LP supply, a value past a u64, a worthless
/// amount, more than the effective balance, or an overflow of the fee split.
pub open spec fn spec_plan_withdraw(ch: ClearingHouseState, vault: AgentVault, lp_amount: u64) -> Result<
    WithdrawPlan,
    RogueTraderError,
> {
    let effective = vault.sol_balance.saturating_sub(vault.locked_sol);
    let supply = vault.total_lp_supply;
    if ch.withdrawals_paused || ch.paused {
        Err(RogueTraderError::Paused)
    } else if lp_amount == 0 {
        Err(RogueTraderError::ZeroAmount)
    } else if supply == 0 {
        Err(RogueTraderError::InsufficientLiquidity)
    } else if gross_of(lp_amount, effective, supply) > u64::MAX {
        Err(RogueTraderError::MathOverflow)
    } else if gross_of(lp_amount, effective, supply) == 0 {
        Err(RogueTraderError::WithdrawTooSmall)
    } else if gross_of(lp_amount, effective, supply) > effective {
        Err(RogueTraderError::InsufficientFreeCapital)
    } else {
        let gross = gross_of(lp_amount, effective, supply) as u64;
        match spec_fee_split(gross, ch.withdrawal_fee_bps, ch.spread_to_lp_bps) {
            None => Err(RogueTraderError::MathOverflow),
            Some(fee) => if fee.total_spread > gross {
                Err(RogueTraderError::MathOverflow)
            } else {
                Ok(
                    WithdrawPlan {
                        lp_amount,
                        gross_sol: gross,
                        fee,
                        net_sol: (gross - fee.total_spread) as u64,
                    },
                )
            },
        }
    }
}

/// Check a withdrawal and price it, before any token or SOL moves.
pub fn plan_withdraw(ch: &ClearingHouseState, vault: &AgentVault, lp_amount: u64) -> (r: Result<
    WithdrawPlan,
    RogueTraderError,
>)
    ensures
        r == spec_plan_withdraw(*ch, *vault, lp_amount),
{
    if ch.withdrawals_paused || ch.paused {
        return Err(RogueTraderError::Paused);
    }
    if lp_amount == 0 {
        return Err(RogueTraderError::ZeroAmount);
    }
    let withdraw_balance = vault.effective_balance();
    let total_supply = vault.total_lp_supply;
    if total_supply == 0 {
        return Err(RogueTraderError::InsufficientLiquidity);
    }
    assert((lp_amount as int) * (withdraw_balance as int) <= u128::MAX) by (nonlinear_arith)
        requires
            lp_amount <= u64::MAX,
            withdraw_balance <= u64::MAX,
    ;
    let wide: u128 = (lp_amount as u128) * (withdraw_balance as u128) / (total_supply as u128);
    if wide > u64::MAX as u128 {
        return Err(RogueTraderError::MathOverflow);
    }
    let gross_sol: u64 = wide as u64;
    if gross_sol == 0 {
        return Err(RogueTraderError::WithdrawTooSmall);
    }
    if gross_sol > withdraw_balance {
        return Err(RogueTraderError::InsufficientFreeCapital);
    }
    let fee = fee_split(gross_sol, ch.withdrawal_fee_bps, ch.spread_to_lp_bps)?;
    let net_sol = match gross_sol.checked_sub(fee.total_spread) {
        Some(n) => n,
        None => {
            return Err(RogueTraderError::MathOverflow);
        },
    };
    Ok(WithdrawPlan { lp_amount, gross_sol, fee, net_sol })
}

/// The withdrawal's bookkeeping cannot complete.
pub open spec fn withdraw_overflows(
    ch: ClearingHouseState,
    vault: AgentVault,
    player: PlayerState,
    plan: WithdrawPlan,
) -> bool {
    ||| plan.fee.lp_spread > plan.gross_sol
    ||| vault.total_withdrawn + plan.gross_sol > u64::MAX
    ||| player.total_withdrawn + plan.gross_sol > u64::MAX
    ||| ch.total_withdrawal_fees + plan.fee.total_spread > u64::MAX
}

/// What a recorded withdrawal leaves: the vault's balance down by the gross
/// less the LP part of the fee (which stays for the remaining holders), its
/// supply down by the burned tokens, the totals and fee statistics, and the
/// event.
pub open spec fn withdrawal_recorded(
    ch0: ClearingHouseState,
    vault0: AgentVault,
    player0: PlayerState,
    ch1: ClearingHouseState,
    vault1: AgentVault,
    player1: PlayerState,
    plan: WithdrawPlan,
    fees: FeeOutcome,
    withdrawer: Pubkey,
    player_bump: u8,
    now: i64,
    r: WithdrawCompleted,
) -> bool {
            let v = vault0;
            let p = player0;
            let fresh = p.wallet@ == zero_key();
            let debit = (plan.gross_sol - plan.fee.lp_spread) as u64;
            &&& vault1 == AgentVault {
                sol_balance: v.sol_balance.saturating_sub(debit),
                total_lp_supply: v.total_lp_supply.saturating_sub(plan.lp_amount),
                total_withdrawn: (v.total_withdrawn + plan.gross_sol) as u64,
                withdrawal_count: (v.withdrawal_count + 1) as u64,
                ..v
            }
            &&& player1 == PlayerState {
                wallet: if fresh { withdrawer } else { p.wallet },
                bump: if fresh { player_bump } else { p.bump },
                total_withdrawn: (p.total_withdrawn + plan.gross_sol) as u64,
                withdrawal_count: (p.withdrawal_count + 1) as u64,
                ..p
            }
            &&& ch1 == fee_stats_after(
                ClearingHouseState {
                    total_withdrawal_fees: (ch0.total_withdrawal_fees + plan.fee.total_spread) as u64,
                    ..ch0
                },
                p,
                fees,
            )
            &&& r == (
                WithdrawCompleted {
                    withdrawer: withdrawer,
                    bot_id: v.bot_id,
                    lp_burned: plan.lp_amount,
                    sol_returned: plan.net_sol,
                    fee_amount: plan.fee.total_spread,
                    new_sol_balance: v.sol_balance.saturating_sub(debit),
                    new_lp_supply: v.total_lp_supply.saturating_sub(plan.lp_amount),
                    timestamp: now,
                }
            )
        }

/// The error a withdrawal of `lp_amount` tokens ends with, checks in order:
/// pausing, the amount, the liquidity, the price, the fee split, and the
/// 64-bit totals; none when it succeeds.
pub open spec fn withdraw_error(
    ch: ClearingHouseState,
    vault: AgentVault,
    player: PlayerState,
    lp_amount: u64,
) -> Option<RogueTraderError> {
    match spec_plan_withdraw(ch, vault, lp_amount) {
        Err(e) => Some(e),
        Ok(plan) => if withdraw_overflows(ch, vault, player, plan) {
            Some(RogueTraderError::MathOverflow)
        } else {
            None
        },
    }
}

/// Withdraw `lp_amount` LP tokens, after they were burned, the net SOL paid
/// and the fee wallets paid as `fees` reports: price the withdrawal (the
/// payout is in the event) and record it. On an error nothing changes.
pub fn handler(
    ch: &mut ClearingHouseState,
    vault: &mut AgentVault,
    player: &mut PlayerState,
    lp_amount: u64,
    fees: &FeeOutcome,
    withdrawer: &Pubkey,
    player_bump: u8,
    now: i64,
) -> (r: Result<WithdrawCompleted, RogueTraderError>)
    requires
        withdraw_error(*old(ch), *old(vault), *old(player), lp_amount) is None ==> {
            &&& old(vault).withdrawal_count < u64::MAX
            &&& old(player).withdrawal_count < u64::MAX
            &&& referral_paid_fits(*fees)
        },
    ensures
        match withdraw_error(*old(ch), *old(vault), *old(player), lp_amount) {
            Some(e) => {
                &&& r == Err::<WithdrawCompleted, RogueTraderError>(e)
                &&& *final(ch) == *old(ch)
                &&& *final(vault) == *old(vault)
                &&& *final(player) == *old(player)
            },
            None => r matches Ok(ev) && withdrawal_recorded(
                *old(ch),
                *old(vault),
                *old(player),
                *final(ch),
                *final(vault),
                *final(player),
                spec_plan_withdraw(*old(ch), *old(vault), lp_amount)->Ok_0,
                *fees,
                *withdrawer,
                player_bump,
                now,
                ev,
            ),
        },
{
    let plan = plan_withdraw(ch, vault, lp_amount)?;
    if plan.fee.lp_spread > plan.gross_sol || vault.total_withdrawn.checked_add(plan.gross_sol).is_none()
        || player.total_withdrawn.checked_add(plan.gross_sol).is_none()
        || ch.total_withdrawal_fees.checked_add(plan.fee.total_spread).is_none() {
        return Err(RogueTraderError::MathOverflow);
    }
    let mut c = *ch;
    let mut v = *vault;
    let mut p = *player;
    let ev = record_withdrawal(&mut c, &mut v, &mut p, &plan, fees, withdrawer, player_bump, now)?;
    *ch = c;
    *vault = v;
    *player = p;
    Ok(ev)
}

/// Record a completed withdrawal priced by `plan`.
fn record_withdrawal(
    ch: &mut ClearingHouseState,
    vault: &mut AgentVault,
    player: &mut PlayerState,
    plan: &WithdrawPlan,
    fees: &FeeOutcome,
    withdrawer: &Pubkey,
    player_bump: u8,
    now: i64,
) -> (r: Result<WithdrawCompleted, RogueTraderError>)
    requires
        old(vault).withdrawal_count < u64::MAX,
        old(player).withdrawal_count < u64::MAX,
        referral_paid_fits(*fees),
    ensures
        withdraw_overflows(*old(ch), *old(vault), *old(player), *plan) ==> r
            == Err::<WithdrawCompleted, RogueTraderError>(RogueTraderError::MathOverflow),
        !withdraw_overflows(*old(ch), *old(vault), *old(player), *plan) ==> (r matches Ok(ev)
            && withdrawal_recorded(
            *old(ch),
            *old(vault),
            *old(player),
            *final(ch),
            *final(vault),
            *final(player),
            *plan,
            *fees,
            *withdrawer,
            player_bump,
            now,
            ev,
        )),
{
    let vault_debit = match plan.gross_sol.checked_sub(plan.fee.lp_spread) {
        Some(d) => d,
        None => {
            return Err(RogueTraderError::MathOverflow);
        },
    };
    vault.sol_balance = vault.sol_balance.saturating_sub(vault_debit);
    vault.total_lp_supply = vault.total_lp_supply.saturating_sub(plan.lp_amount);
    vault.total_withdrawn = match vault.total_withdrawn.checked_add(plan.gross_sol) {
        Some(t) => t,
        None => {
            return Err(RogueTraderError::MathOverflow);
        },
    };
    vault.withdrawal_count = vault.withdrawal_count + 1;
    let old_player = *player;
    if player.wallet.is_default() {
        player.wallet = *withdrawer;
        player.bump = player_bump;
    }
    player.total_withdrawn = match player.total_withdrawn.checked_add(plan.gross_sol) {
        Some(t) => t,
        None => {
            return Err(RogueTraderError::MathOverflow);
        },
    };
    player.withdrawal_count = player.withdrawal_count + 1;
    ch.total_withdrawal_fees = match ch.total_withdrawal_fees.checked_add(plan.fee.total_spread) {
        Some(t) => t,
        None => {
            return Err(RogueTraderError::MathOverflow);
        },
    };
    record_fee_stats(ch, &old_player, fees);
    Ok(
        WithdrawCompleted {
            withdrawer: *withdrawer,
            bot_id: vault.bot_id,
            lp_burned: plan.lp_amount,
            sol_returned: plan.net_sol,
            fee_amount: plan.fee.total_spread,
            new_sol_balance: vault.sol_balance,
            new_lp_supply: vault.total_lp_supply,
            timestamp: now,
        },
    )
}

} // verus!
