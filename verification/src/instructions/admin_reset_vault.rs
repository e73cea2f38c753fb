//! The safety valve: the authority or the settler resets a vault's
//! counters, and optionally its balance and LP mint.

use vstd::prelude::*;
use crate::error::RogueTraderError;
use crate::pubkey::Pubkey;
use crate::state::agent_vault::AgentVault;
use crate::state::clearing_house::ClearingHouseState;

verus! {

/// The vault after the optional resets, before the counters are checked: a
/// new LP mint zeroes the cached LP supply.
pub open spec fn vault_with_resets(
    v: AgentVault,
    sol_balance: Option<u64>,
    lp_mint: Option<Pubkey>,
    lp_mint_bump: Option<u8>,
) -> AgentVault {
    AgentVault {
        lp_mint: match lp_mint {
            Some(m) => m,
            None => v.lp_mint,
        },
        total_lp_supply: match lp_mint {
            Some(_) => 0,
            None => v.total_lp_supply,
        },
        lp_mint_bump: match lp_mint_bump {
            Some(b) => b,
            None => v.lp_mint_bump,
        },
        sol_balance: match sol_balance {
            Some(b) => b,
            None => v.sol_balance,
        },
        ..v
    }
}

/// Reset the vault: apply the optional LP mint, bump and balance, then set
/// the active bet count and the locked amounts, which must satisfy
/// counterparty-locked <= locked <= balance.
pub fn handler(
    ch: &ClearingHouseState,
    vault: &mut AgentVault,
    signer: &Pubkey,
    active_bet_count: u8,
    locked_sol: u64,
    counterparty_locked_sol: u64,
    sol_balance: Option<u64>,
    lp_mint: Option<Pubkey>,
    lp_mint_bump: Option<u8>,
) -> (r: Result<(), RogueTraderError>)
    ensures
        ({
            let v = vault_with_resets(*old(vault), sol_balance, lp_mint, lp_mint_bump);
            if signer@ != ch.authority@ && signer@ != ch.settler@ {
                r == Err::<(), RogueTraderError>(RogueTraderError::UnauthorizedSettler)
            } else if locked_sol > v.sol_balance || counterparty_locked_sol > locked_sol {
                r == Err::<(), RogueTraderError>(RogueTraderError::InvalidConfig)
            } else {
                &&& r is Ok
                &&& *final(vault) == AgentVault {
                    active_bet_count,
                    locked_sol,
                    counterparty_locked_sol,
                    ..v
                }
            }
        }),
        r is Err ==> *final(vault) == *old(vault),
{
    if !signer.key_eq(&ch.authority) && !signer.key_eq(&ch.settler) {
        return Err(RogueTraderError::UnauthorizedSettler);
    }
    let mut v = *vault;
    if let Some(new_lp_mint) = lp_mint {
        v.lp_mint = new_lp_mint;
        v.total_lp_supply = 0;
    }
    if let Some(new_bump) = lp_mint_bump {
        v.lp_mint_bump = new_bump;
    }
    if let Some(new_sol_balance) = sol_balance {
        v.sol_balance = new_sol_balance;
    }
    if locked_sol > v.sol_balance {
        return Err(RogueTraderError::InvalidConfig);
    }
    if counterparty_locked_sol > locked_sol {
        return Err(RogueTraderError::InvalidConfig);
    }
    v.active_bet_count = active_bet_count;
    v.locked_sol = locked_sol;
    v.counterparty_locked_sol = counterparty_locked_sol;
    *vault = v;
    Ok(())
}

} // verus!
