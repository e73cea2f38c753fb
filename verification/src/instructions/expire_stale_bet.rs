//! Expiring a bet nobody settled in time: all locked capital is released,
//! nobody wins.

use vstd::prelude::*;
use crate::clock::Clock;
use crate::error::RogueTraderError;
use crate::events::StaleBetExpired;
use crate::instructions::accounts::{
    check_positions_present,
    check_vault_accounts,
    first_vault_account_error,
    position_missing,
    staked_positions_in_range,
};
use crate::pubkey::Pubkey;
use crate::state::agent_vault::AgentVault;
use crate::state::bet::{Bet, stake_of};
use crate::state::clearing_house::{ClearingHouseState, spec_settle_buffer};

verus! {

/// Stake of the bet held by vault `v` (0 when the bet has none for its bot).
pub open spec fn stake_in(bet: Bet, v: AgentVault) -> u64 {
    stake_of(bet.counterparties@, bet.cp_count as int, v.bot_id)
}

/// Stakes of the bet held by the first `n` vaults.
pub open spec fn stakes_held(bet: Bet, vaults: Seq<AgentVault>, n: int) -> int
    decreases n,
{
    if n <= 0 {
        0
    } else {
        stakes_held(bet, vaults, n - 1) + stake_in(bet, vaults[n - 1])
    }
}

/// A vault with its stake in the bet unlocked.
pub open spec fn cp_after_expiry(v: AgentVault, stake: u64) -> AgentVault {
    if stake == 0 {
        v
    } else {
        AgentVault {
            locked_sol: v.locked_sol.saturating_sub(stake),
            counterparty_locked_sol: v.counterparty_locked_sol.saturating_sub(stake),
            ..v
        }
    }
}

/// The first check an expiry fails: proposer vault of the bet, signer the
/// authority or the settler, bet unsettled, buffer after expiry elapsed,
/// then the counterparty accounts and the presence of every staked one.
pub open spec fn expire_error(
    ch: ClearingHouseState,
    proposer: AgentVault,
    bet: Bet,
    signer: Seq<u8>,
    now: i64,
    vaults: Seq<AgentVault>,
    keys: Seq<Pubkey>,
    program_id: Seq<u8>,
) -> Option<RogueTraderError> {
    if proposer.bot_id != bet.proposer_bot {
        Some(RogueTraderError::VaultBetMismatch)
    } else if signer != ch.authority@ && signer != ch.settler@ {
        Some(RogueTraderError::UnauthorizedSettler)
    } else if bet.settled {
        Some(RogueTraderError::BetAlreadySettled)
    } else if now < bet.expiry_timestamp + spec_settle_buffer(ch) {
        Some(RogueTraderError::StaleBetBufferNotElapsed)
    } else if first_vault_account_error(vaults, keys, program_id, 0) is Some {
        first_vault_account_error(vaults, keys, program_id, 0)
    } else if position_missing(bet, vaults) {
        Some(RogueTraderError::MissingCounterparty)
    } else {
        None
    }
}

/// The first of the checks that precede the settlement window a stale
/// expiry fails: the proposer's vault, the signer's role, the bet's state;
/// none when all pass.
pub open spec fn expire_role_error(ch: ClearingHouseState, proposer: AgentVault, bet: Bet, signer: Seq<u8>) -> Option<
    RogueTraderError,
> {
    if proposer.bot_id != bet.proposer_bot {
        Some(RogueTraderError::VaultBetMismatch)
    } else if signer != ch.authority@ && signer != ch.settler@ {
        Some(RogueTraderError::UnauthorizedSettler)
    } else if bet.settled {
        Some(RogueTraderError::BetAlreadySettled)
    } else {
        None
    }
}

/// The checks of `expire_role_error`.
pub fn expire_role_check(ch: &ClearingHouseState, proposer: &AgentVault, bet: &Bet, signer: &Pubkey) -> (r:
    Option<RogueTraderError>)
    ensures
        r == expire_role_error(*ch, *proposer, *bet, signer@),
{
    if proposer.bot_id != bet.proposer_bot {
        Some(RogueTraderError::VaultBetMismatch)
    } else if !signer.key_eq(&ch.authority) && !signer.key_eq(&ch.settler) {
        Some(RogueTraderError::UnauthorizedSettler)
    } else if bet.settled {
        Some(RogueTraderError::BetAlreadySettled)
    } else {
        None
    }
}

/// Expire a stale bet: after the buffer past expiry, unlock the proposer's
/// and every counterparty's stake without moving any balance. The caller
/// closes the bet account.
pub fn handler(
    ch: &ClearingHouseState,
    proposer: &mut AgentVault,
    bet: &Bet,
    signer: &Pubkey,
    clock: &Clock,
    vaults: &mut Vec<AgentVault>,
    vault_keys: &Vec<Pubkey>,
    program_id: &Pubkey,
) -> (r: Result<StaleBetExpired, RogueTraderError>)
    requires
        old(vaults)@.len() == vault_keys@.len(),
        expire_role_error(*ch, *old(proposer), *bet, signer@) is None ==> bet.expiry_timestamp
            + spec_settle_buffer(*ch) <= i64::MAX,
        expire_role_error(*ch, *old(proposer), *bet, signer@) is None && clock.unix_timestamp
            >= bet.expiry_timestamp
            + spec_settle_buffer(*ch) && first_vault_account_error(
            old(vaults)@,
            vault_keys@,
            program_id@,
            0,
        ) is None ==> staked_positions_in_range(*bet),
        expire_error(
            *ch,
            *old(proposer),
            *bet,
            signer@,
            clock.unix_timestamp,
            old(vaults)@,
            vault_keys@,
            program_id@,
        ) is None ==> bet.proposer_stake + stakes_held(*bet, old(vaults)@, old(vaults)@.len() as int)
            <= u64::MAX,
    ensures
        match expire_error(
            *ch,
            *old(proposer),
            *bet,
            signer@,
            clock.unix_timestamp,
            old(vaults)@,
            vault_keys@,
            program_id@,
        ) {
            Some(e) => {
                &&& r == Err::<StaleBetExpired, RogueTraderError>(e)
                &&& *final(proposer) == *old(proposer)
                &&& final(vaults)@ == old(vaults)@
            },
            None => {
                &&& r == Ok::<StaleBetExpired, RogueTraderError>(
                    StaleBetExpired {
                        bet_id: bet.bet_id,
                        proposer_bot: old(proposer).bot_id,
                        locked_sol_returned: (bet.proposer_stake + stakes_held(
                            *bet,
                            old(vaults)@,
                            old(vaults)@.len() as int,
                        )) as u64,
                        timestamp: clock.unix_timestamp,
                    },
                )
                &&& *final(proposer) == AgentVault {
                    locked_sol: old(proposer).locked_sol.saturating_sub(bet.proposer_stake),
                    active_bet_count: old(proposer).active_bet_count.saturating_sub(1),
                    ..*old(proposer)
                }
                &&& final(vaults)@.len() == old(vaults)@.len()
                &&& forall|i: int|
                    0 <= i < old(vaults)@.len() ==> #[trigger] final(vaults)@[i]
                        == cp_after_expiry(old(vaults)@[i], stake_in(*bet, old(vaults)@[i]))
            },
        },
{
    if proposer.bot_id != bet.proposer_bot {
        return Err(RogueTraderError::VaultBetMismatch);
    }
    if !signer.key_eq(&ch.authority) && !signer.key_eq(&ch.settler) {
        return Err(RogueTraderError::UnauthorizedSettler);
    }
    if bet.settled {
        return Err(RogueTraderError::BetAlreadySettled);
    }
    let buffer = ch.settle_buffer();
    if clock.unix_timestamp < bet.expiry_timestamp + buffer {
        return Err(RogueTraderError::StaleBetBufferNotElapsed);
    }
    check_vault_accounts(vaults, vault_keys, program_id)?;
    check_positions_present(bet, vaults)?;
    let proposer_stake = bet.proposer_stake;
    let ghost orig = vaults@;
    let n = vaults.len();
    let mut total_unlocked: u64 = 0;
    let mut i: usize = 0;
    while i < n
        invariant
            n == orig.len(),
            orig == old(vaults)@,
            vaults@.len() == n,
            i <= n,
            bet.cp_count <= 29,
            total_unlocked == stakes_held(*bet, orig, i as int),
            bet.proposer_stake + stakes_held(*bet, orig, n as int) <= u64::MAX,
            forall|j: int|
                0 <= j < i ==> #[trigger] vaults@[j] == cp_after_expiry(
                    orig[j],
                    stake_in(*bet, orig[j]),
                ),
            forall|j: int| i <= j < n ==> #[trigger] vaults@[j] == orig[j],
        decreases n - i,
    {
        proof {
            lemma_stakes_held_monotone(*bet, orig, i + 1, n as int);
        }
        let v = vaults[i];
        let stake = bet.counterparty_stake(v.bot_id);
        if stake > 0 {
            let mut nv = v;
            nv.locked_sol = nv.locked_sol.saturating_sub(stake);
            nv.counterparty_locked_sol = nv.counterparty_locked_sol.saturating_sub(stake);
            vaults[i] = nv;
            total_unlocked = total_unlocked + stake;
        }
        i = i + 1;
    }
    proposer.locked_sol = proposer.locked_sol.saturating_sub(proposer_stake);
    proposer.active_bet_count = proposer.active_bet_count.saturating_sub(1);
    Ok(
        StaleBetExpired {
            bet_id: bet.bet_id,
            proposer_bot: proposer.bot_id,
            locked_sol_returned: proposer_stake + total_unlocked,
            timestamp: clock.unix_timestamp,
        },
    )
}

/// The stakes held grow with the number of vaults counted.
pub proof fn lemma_stakes_held_monotone(bet: Bet, vaults: Seq<AgentVault>, m: int, n: int)
    requires
        0 <= m <= n,
    ensures
        stakes_held(bet, vaults, m) <= stakes_held(bet, vaults, n),
    decreases n - m,
{
    if m < n {
        lemma_stakes_held_monotone(bet, vaults, m, n - 1);
    }
}

} // verus!
