//! The authority funding a bot's vault directly (no LP tokens minted).

use vstd::prelude::*;
use crate::error::RogueTraderError;
use crate::events::VaultFunded;
use crate::state::agent_vault::AgentVault;

verus! {

/// Credit `amount` lamports, already transferred into the master vault, to
/// the bot's balance.
pub fn handler(vault: &mut AgentVault, amount: u64, now: i64) -> (r: Result<VaultFunded, RogueTraderError>)
    ensures
        amount == 0 ==> r == Err::<VaultFunded, RogueTraderError>(RogueTraderError::ZeroAmount)
            && *final(vault) == *old(vault),
        amount > 0 && old(vault).sol_balance + amount > u64::MAX ==> r == Err::<
            VaultFunded,
            RogueTraderError,
        >(RogueTraderError::MathOverflow) && *final(vault) == *old(vault),
        amount > 0 && old(vault).sol_balance + amount <= u64::MAX ==> {
            &&& *final(vault) == AgentVault {
                sol_balance: (old(vault).sol_balance + amount) as u64,
                ..*old(vault)
            }
            &&& r == Ok::<VaultFunded, RogueTraderError>(
                VaultFunded {
                    bot_id: old(vault).bot_id,
                    amount,
                    new_balance: (old(vault).sol_balance + amount) as u64,
                    timestamp: now,
                },
            )
        },
{
    if amount == 0 {
        return Err(RogueTraderError::ZeroAmount);
    }
    vault.sol_balance = match vault.sol_balance.checked_add(amount) {
        Some(b) => b,
        None => {
            return Err(RogueTraderError::MathOverflow);
        },
    };
    Ok(VaultFunded { bot_id: vault.bot_id, amount, new_balance: vault.sol_balance, timestamp: now })
}

} // verus!
