//! Deposits: a user pays SOL into the master vault and receives the bot's LP
//! tokens, priced on the vault's full balance, minus the deposit fee.

use vstd::prelude::*;
use crate::error::RogueTraderError;
use crate::events::DepositCompleted;
use crate::instructions::fees::{
    FeeOutcome,
    FeeSplit,
    fee_split,
    fee_stats_after,
    record_fee_stats,
    referral_paid_fits,
    spec_fee_split,
};
use crate::pubkey::{Pubkey, zero_key};
use crate::state::agent_vault::{AgentVault, MINIMUM_LIQUIDITY};
use crate::state::clearing_house::ClearingHouseState;
use crate::state::player_state::PlayerState;

verus! {

/// The figures of a deposit before any transfer.
#[derive(Clone, Copy, Debug, PartialEq, Eq, Structural)]
pub struct DepositPlan {
    pub amount: u64,
    pub fee: FeeSplit,
    /// Credited to the vault's balance: the amount less what the fee wallets get.
    pub vault_credit: u64,
    /// The amount LP tokens are minted for: the amount less the whole fee.
    pub lp_basis: u64,
}

/// The deposit's figures, or the error it stops with: deposits paused, a
/// zero amount, or an overflow of the fee split.
pub open spec fn spec_plan_deposit(ch: ClearingHouseState, amount: u64) -> Result<DepositPlan, RogueTraderError> {
    if ch.deposits_paused || ch.paused {
        Err(RogueTraderError::Paused)
    } else if amount == 0 {
        Err(RogueTraderError::ZeroAmount)
    } else {
        match spec_fee_split(amount, ch.deposit_fee_bps, ch.spread_to_lp_bps) {
            None => Err(RogueTraderError::MathOverflow),
            Some(fee) => if fee.distribute_amount > amount || fee.total_spread > amount {
                Err(RogueTraderError::MathOverflow)
            } else {
                Ok(
                    DepositPlan {
                        amount,
                        fee,
                        vault_credit: (amount - fee.distribute_amount) as u64,
                        lp_basis: (amount - fee.total_spread) as u64,
                    },
                )
            },
        }
    }
}

/// Check a deposit and split its fee, before the user's SOL moves.
pub fn plan_deposit(ch: &ClearingHouseState, amount: u64) -> (r: Result<DepositPlan, RogueTraderError>)
    ensures
        r == spec_plan_deposit(*ch, amount),
{
    if ch.deposits_paused || ch.paused {
        return Err(RogueTraderError::Paused);
    }
    if amount == 0 {
        return Err(RogueTraderError::ZeroAmount);
    }
    let fee = fee_split(amount, ch.deposit_fee_bps, ch.spread_to_lp_bps)?;
    let vault_credit = match amount.checked_sub(fee.distribute_amount) {
        Some(v) => v,
        None => {
            return Err(RogueTraderError::MathOverflow);
        },
    };
    let lp_basis = match amount.checked_sub(fee.total_spread) {
        Some(v) => v,
        None => {
            return Err(RogueTraderError::MathOverflow);
        },
    };
    Ok(DepositPlan { amount, fee, vault_credit, lp_basis })
}

/// LP tokens for a deposit: on the first deposit the basis less the locked
/// minimum liquidity; afterwards basis × supply / balance, priced on the full
/// balance (locked capital included), refused when that exceeds a u64.
pub open spec fn spec_lp_to_mint(lp_basis: u64, sol_balance: u64, supply: u64) -> Result<u64, RogueTraderError> {
    if supply == 0 {
        if lp_basis <= MINIMUM_LIQUIDITY {
            Err(RogueTraderError::DepositTooSmall)
        } else {
            Ok((lp_basis - MINIMUM_LIQUIDITY) as u64)
        }
    } else if sol_balance == 0 {
        Err(RogueTraderError::MathOverflow)
    } else if (lp_basis as int) * (supply as int) / (sol_balance as int) > u64::MAX {
        Err(RogueTraderError::MathOverflow)
    } else if (lp_basis as int) * (supply as int) / (sol_balance as int) == 0 {
        Err(RogueTraderError::DepositTooSmall)
    } else {
        Ok(((lp_basis as int) * (supply as int) / (sol_balance as int)) as u64)
    }
}

/// LP tokens to mint for a deposit's basis, given the vault's balance and
/// LP supply before it.
pub fn lp_tokens_for_deposit(lp_basis: u64, sol_balance: u64, supply: u64) -> (r: Result<u64, RogueTraderError>)
    ensures
        r == spec_lp_to_mint(lp_basis, sol_balance, supply),
{
    let lp: u64 = if supply == 0 {
        if lp_basis <= MINIMUM_LIQUIDITY {
            return Err(RogueTraderError::DepositTooSmall);
        }
        lp_basis - MINIMUM_LIQUIDITY
    } else {
        if sol_balance == 0 {
            return Err(RogueTraderError::MathOverflow);
        }
        assert((lp_basis as int) * (supply as int) <= u128::MAX) by (nonlinear_arith)
            requires
                lp_basis <= u64::MAX,
                supply <= u64::MAX,
        ;
        let wide: u128 = (lp_basis as u128) * (supply as u128) / (sol_balance as u128);
        if wide > u64::MAX as u128 {
            return Err(RogueTraderError::MathOverflow);
        }
        wide as u64
    };
    if lp == 0 {
        return Err(RogueTraderError::DepositTooSmall);
    }
    Ok(lp)
}

/// The deposit's bookkeeping cannot complete: a balance, supply or total
/// would overflow.
pub open spec fn deposit_overflows(
    ch: ClearingHouseState,
    vault: AgentVault,
    player: PlayerState,
    plan: DepositPlan,
    lp_minted: u64,
) -> bool {
    ||| vault.sol_balance + plan.vault_credit > u64::MAX
    ||| (vault.total_lp_supply != 0 && vault.total_lp_supply + lp_minted > u64::MAX)
    ||| vault.total_deposited + plan.vault_credit > u64::MAX
    ||| player.total_deposited + plan.amount > u64::MAX
    ||| ch.total_deposit_fees + plan.fee.total_spread > u64::MAX
}

/// What a recorded deposit leaves: the vault's balance grown by the vault
/// credit (the LP part of the fee stays), its supply by the minted tokens
/// (plus the locked minimum on the first deposit), the player's and the
/// clearing house's totals and fee statistics, and the event.
pub open spec fn deposit_recorded(
    ch0: ClearingHouseState,
    vault0: AgentVault,
    player0: PlayerState,
    ch1: ClearingHouseState,
    vault1: AgentVault,
    player1: PlayerState,
    plan: DepositPlan,
    lp_minted: u64,
    fees: FeeOutcome,
    depositor: Pubkey,
    player_bump: u8,
    now: i64,
    r: DepositCompleted,
) -> bool {
            let v = vault0;
            let new_supply = if v.total_lp_supply == 0 {
                lp_minted + MINIMUM_LIQUIDITY
            } else {
                v.total_lp_supply + lp_minted
            };
            let p = player0;
            let fresh = p.wallet@ == zero_key();
            &&& vault1 == AgentVault {
                sol_balance: (v.sol_balance + plan.vault_credit) as u64,
                total_lp_supply: new_supply as u64,
                total_deposited: (v.total_deposited + plan.vault_credit) as u64,
                deposit_count: (v.deposit_count + 1) as u64,
                ..v
            }
            &&& player1 == PlayerState {
                wallet: if fresh { depositor } else { p.wallet },
                bump: if fresh { player_bump } else { p.bump },
                total_deposited: (p.total_deposited + plan.amount) as u64,
                deposit_count: (p.deposit_count + 1) as u64,
                ..p
            }
            &&& ch1 == fee_stats_after(
                ClearingHouseState {
                    total_deposit_fees: (ch0.total_deposit_fees + plan.fee.total_spread) as u64,
                    ..ch0
                },
                p,
                fees,
            )
            &&& r == (
                DepositCompleted {
                    depositor: depositor,
                    bot_id: v.bot_id,
                    sol_amount: plan.amount,
                    fee_amount: plan.fee.total_spread,
                    lp_minted,
                    new_sol_balance: (v.sol_balance + plan.vault_credit) as u64,
                    new_lp_supply: new_supply as u64,
                    timestamp: now,
                }
            )
        }

/// The error a deposit of `amount` ends with, checks in order: pausing, the
/// amount, the fee split, the LP price, and the 64-bit totals; none when it
/// succeeds.
pub open spec fn deposit_error(
    ch: ClearingHouseState,
    vault: AgentVault,
    player: PlayerState,
    amount: u64,
) -> Option<RogueTraderError> {
    match spec_plan_deposit(ch, amount) {
        Err(e) => Some(e),
        Ok(plan) => match spec_lp_to_mint(plan.lp_basis, vault.sol_balance, vault.total_lp_supply) {
            Err(e) => Some(e),
            Ok(lp) => if deposit_overflows(ch, vault, player, plan, lp) {
                Some(RogueTraderError::MathOverflow)
            } else {
                None
            },
        },
    }
}

/// Deposit `amount` into the vault, after the user's SOL reached it and the
/// fee wallets were paid as `fees` reports: price the deposit, mint its LP
/// tokens (returned in the event, for the caller to mint) and record it. On
/// an error nothing changes.
pub fn handler(
    ch: &mut ClearingHouseState,
    vault: &mut AgentVault,
    player: &mut PlayerState,
    amount: u64,
    fees: &FeeOutcome,
    depositor: &Pubkey,
    player_bump: u8,
    now: i64,
) -> (r: Result<DepositCompleted, RogueTraderError>)
    requires
        deposit_error(*old(ch), *old(vault), *old(player), amount) is None ==> {
            &&& old(vault).deposit_count < u64::MAX
            &&& old(player).deposit_count < u64::MAX
            &&& referral_paid_fits(*fees)
        },
    ensures
        match deposit_error(*old(ch), *old(vault), *old(player), amount) {
            Some(e) => {
                &&& r == Err::<DepositCompleted, RogueTraderError>(e)
                &&& *final(ch) == *old(ch)
                &&& *final(vault) == *old(vault)
                &&& *final(player) == *old(player)
            },
            None => r matches Ok(ev) && deposit_recorded(
                *old(ch),
                *old(vault),
                *old(player),
                *final(ch),
                *final(vault),
                *final(player),
                spec_plan_deposit(*old(ch), amount)->Ok_0,
                spec_lp_to_mint(
                    spec_plan_deposit(*old(ch), amount)->Ok_0.lp_basis,
                    old(vault).sol_balance,
                    old(vault).total_lp_supply,
                )->Ok_0,
                *fees,
                *depositor,
                player_bump,
                now,
                ev,
            ),
        },
{
    let plan = plan_deposit(ch, amount)?;
    let lp = lp_tokens_for_deposit(plan.lp_basis, vault.sol_balance, vault.total_lp_supply)?;
    if vault.sol_balance.checked_add(plan.vault_credit).is_none() || (vault.total_lp_supply != 0
        && vault.total_lp_supply.checked_add(lp).is_none()) || vault.total_deposited.checked_add(
        plan.vault_credit,
    ).is_none() || player.total_deposited.checked_add(plan.amount).is_none()
        || ch.total_deposit_fees.checked_add(plan.fee.total_spread).is_none() {
        return Err(RogueTraderError::MathOverflow);
    }
    let mut c = *ch;
    let mut v = *vault;
    let mut p = *player;
    let ev = record_deposit(&mut c, &mut v, &mut p, &plan, lp, fees, depositor, player_bump, now)?;
    *ch = c;
    *vault = v;
    *player = p;
    Ok(ev)
}

/// Record a completed deposit priced by `plan` and `lp_minted`.
fn record_deposit(
    ch: &mut ClearingHouseState,
    vault: &mut AgentVault,
    player: &mut PlayerState,
    plan: &DepositPlan,
    lp_minted: u64,
    fees: &FeeOutcome,
    depositor: &Pubkey,
    player_bump: u8,
    now: i64,
) -> (r: Result<DepositCompleted, RogueTraderError>)
    requires
        old(vault).deposit_count < u64::MAX,
        old(player).deposit_count < u64::MAX,
        referral_paid_fits(*fees),
        old(vault).total_lp_supply == 0 ==> lp_minted + MINIMUM_LIQUIDITY <= u64::MAX,
    ensures
        deposit_overflows(*old(ch), *old(vault), *old(player), *plan, lp_minted) ==> r
            == Err::<DepositCompleted, RogueTraderError>(RogueTraderError::MathOverflow),
        !deposit_overflows(*old(ch), *old(vault), *old(player), *plan, lp_minted) ==> (r matches Ok(
            ev,
        ) && deposit_recorded(
            *old(ch),
            *old(vault),
            *old(player),
            *final(ch),
            *final(vault),
            *final(player),
            *plan,
            lp_minted,
            *fees,
            *depositor,
            player_bump,
            now,
            ev,
        )),
{
    let current_supply = vault.total_lp_supply;
    vault.sol_balance = match vault.sol_balance.checked_add(plan.vault_credit) {
        Some(b) => b,
        None => {
            return Err(RogueTraderError::MathOverflow);
        },
    };
    if current_supply == 0 {
        vault.total_lp_supply = lp_minted + MINIMUM_LIQUIDITY;
    } else {
        vault.total_lp_supply = match vault.total_lp_supply.checked_add(lp_minted) {
            Some(s) => s,
            None => {
                return Err(RogueTraderError::MathOverflow);
            },
        };
    }
    vault.total_deposited = match vault.total_deposited.checked_add(plan.vault_credit) {
        Some(t) => t,
        None => {
            return Err(RogueTraderError::MathOverflow);
        },
    };
    vault.deposit_count = vault.deposit_count + 1;
    let old_player = *player;
    if player.wallet.is_default() {
        player.wallet = *depositor;
        player.bump = player_bump;
    }
    player.total_deposited = match player.total_deposited.checked_add(plan.amount) {
        Some(t) => t,
        None => {
            return Err(RogueTraderError::MathOverflow);
        },
    };
    player.deposit_count = player.deposit_count + 1;
    ch.total_deposit_fees = match ch.total_deposit_fees.checked_add(plan.fee.total_spread) {
        Some(t) => t,
        None => {
            return Err(RogueTraderError::MathOverflow);
        },
    };
    record_fee_stats(ch, &old_player, fees);
    Ok(
        DepositCompleted {
            depositor: *depositor,
            bot_id: vault.bot_id,
            sol_amount: plan.amount,
            fee_amount: plan.fee.total_spread,
            lp_minted,
            new_sol_balance: vault.sol_balance,
            new_lp_supply: vault.total_lp_supply,
            timestamp: now,
        },
    )
}

} // verus!
