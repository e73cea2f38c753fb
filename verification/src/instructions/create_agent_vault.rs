//! Creating a bot's vault.

use vstd::prelude::*;
use crate::error::RogueTraderError;
use crate::events::AgentVaultCreated;
use crate::pubkey::Pubkey;
use crate::state::agent_vault::AgentVault;
use crate::state::clearing_house::ClearingHouseState;

verus! {

/// A new, empty vault: no balance, no LP tokens, an empty outcome window and
/// no statistics, the settler as executor.
pub open spec fn fresh_vault(
    v: AgentVault,
    bot_id: u8,
    group_id: u8,
    name: [u8; 16],
    lp_mint: Pubkey,
    lp_authority: Pubkey,
    lp_mint_bump: u8,
    lp_authority_bump: u8,
    executor: Pubkey,
    bump: u8,
) -> bool {
    &&& v.bot_id == bot_id
    &&& v.group_id == group_id
    &&& v.name == name
    &&& v.lp_mint == lp_mint
    &&& v.lp_authority == lp_authority
    &&& v.lp_mint_bump == lp_mint_bump
    &&& v.lp_authority_bump == lp_authority_bump
    &&& v.sol_balance == 0
    &&& v.locked_sol == 0
    &&& v.total_lp_supply == 0
    &&& v.total_deposited == 0
    &&& v.total_withdrawn == 0
    &&& v.deposit_count == 0
    &&& v.withdrawal_count == 0
    &&& v.authorized_executor == executor
    &&& v.bet_window@ == Seq::new(100, |i: int| 0u8)
    &&& v.window_head == 0
    &&& v.window_count == 0
    &&& v.wins_in_window == 0
    &&& v.bets_proposed == 0
    &&& v.bets_won == 0
    &&& v.bets_lost == 0
    &&& v.bets_tied == 0
    &&& v.active_bet_count == 0
    &&& v.bump == bump
    &&& v.counterparty_locked_sol == 0
    &&& v._reserved@ == Seq::new(56, |i: int| 0u8)
}

/// Create the vault of bot `bot_id` (1..=30) in group `group_id` (1..=5).
pub fn handler(
    ch: &ClearingHouseState,
    bot_id: u8,
    group_id: u8,
    name: [u8; 16],
    lp_mint: &Pubkey,
    lp_authority: &Pubkey,
    lp_mint_bump: u8,
    lp_authority_bump: u8,
    bump: u8,
    vault_key: &Pubkey,
    now: i64,
) -> (r: Result<(AgentVault, AgentVaultCreated), RogueTraderError>)
    ensures
        !(1 <= bot_id <= 30) ==> r == Err::<(AgentVault, AgentVaultCreated), RogueTraderError>(
            RogueTraderError::InvalidBotId,
        ),
        1 <= bot_id <= 30 && !(1 <= group_id <= 5) ==> r == Err::<
            (AgentVault, AgentVaultCreated),
            RogueTraderError,
        >(RogueTraderError::InvalidGroupId),
        1 <= bot_id <= 30 && 1 <= group_id <= 5 ==> (r matches Ok(res) && fresh_vault(
            res.0,
            bot_id,
            group_id,
            name,
            *lp_mint,
            *lp_authority,
            lp_mint_bump,
            lp_authority_bump,
            ch.settler,
            bump,
        ) && res.1 == (AgentVaultCreated {
            bot_id,
            group_id,
            name,
            lp_mint: *lp_mint,
            vault_pubkey: *vault_key,
            timestamp: now,
        })),
{
    if !(bot_id >= 1 && bot_id <= 30) {
        return Err(RogueTraderError::InvalidBotId);
    }
    if !(group_id >= 1 && group_id <= 5) {
        return Err(RogueTraderError::InvalidGroupId);
    }
    let vault = AgentVault {
        bot_id,
        group_id,
        name,
        lp_mint: *lp_mint,
        lp_authority: *lp_authority,
        lp_mint_bump,
        lp_authority_bump,
        sol_balance: 0,
        locked_sol: 0,
        total_lp_supply: 0,
        total_deposited: 0,
        total_withdrawn: 0,
        deposit_count: 0,
        withdrawal_count: 0,
        authorized_executor: ch.settler,
        bet_window: [0u8; 100],
        window_head: 0,
        window_count: 0,
        wins_in_window: 0,
        bets_proposed: 0,
        bets_won: 0,
        bets_lost: 0,
        bets_tied: 0,
        active_bet_count: 0,
        bump,
        counterparty_locked_sol: 0,
        _reserved: [0u8; 56],
    };
    assert(vault.bet_window@ =~= Seq::new(100, |i: int| 0u8));
    assert(vault._reserved@ =~= Seq::new(56, |i: int| 0u8));
    let event = AgentVaultCreated {
        bot_id,
        group_id,
        name,
        lp_mint: *lp_mint,
        vault_pubkey: *vault_key,
        timestamp: now,
    };
    Ok((vault, event))
}

} // verus!
