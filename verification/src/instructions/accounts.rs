//! Checks on the bot vault accounts an instruction is handed.

use vstd::prelude::*;
use crate::crypto::{find_program_address, program_address};
use crate::error::RogueTraderError;
use crate::pubkey::Pubkey;
use crate::state::agent_vault::AgentVault;
use crate::state::bet::Bet;

verus! {

/// Seed prefix of bot vault addresses.
pub open spec fn agent_vault_seed() -> Seq<u8> {
    seq![97u8, 103u8, 101u8, 110u8, 116u8, 95u8, 118u8, 97u8, 117u8, 108u8, 116u8]
}

/// `key` is the vault address derived for `bot_id` under the program.
pub open spec fn is_vault_address(key: Seq<u8>, bot_id: u8, program_id: Seq<u8>) -> bool {
    program_address(agent_vault_seed(), seq![bot_id], program_id) matches Some(found)
        && found.0 == key
}

/// Whether `key` is the address derived from `["agent_vault", bot_id]`.
pub fn vault_address_matches(key: &Pubkey, bot_id: u8, program_id: &Pubkey) -> (r: bool)
    ensures
        r == is_vault_address(key@, bot_id, program_id@),
{
    let seed: [u8; 11] = [97, 103, 101, 110, 116, 95, 118, 97, 117, 108, 116];
    assert(seed@ =~= agent_vault_seed());
    let id: [u8; 1] = [bot_id];
    assert(id@ =~= seq![bot_id]);
    match find_program_address(seed.as_slice(), id.as_slice(), program_id) {
        Some(found) => found.0.key_eq(key),
        None => false,
    }
}


/// Some account before position `i` holds a vault of the same bot.
pub open spec fn duplicate_before(vaults: Seq<AgentVault>, i: int) -> bool {
    exists|j: int| 0 <= j < i && #[trigger] vaults[j].bot_id == vaults[i].bot_id
}

/// The check that fails first for account `i` among those every instruction
/// handed bot vaults makes: address derivation, bot id range, uniqueness.
pub open spec fn vault_account_error(
    vaults: Seq<AgentVault>,
    keys: Seq<Pubkey>,
    program_id: Seq<u8>,
    i: int,
) -> Option<RogueTraderError> {
    if !is_vault_address(keys[i]@, vaults[i].bot_id, program_id) {
        Some(RogueTraderError::InvalidCounterpartyVault)
    } else if vaults[i].bot_id > 30 {
        Some(RogueTraderError::InvalidCounterpartyVault)
    } else if duplicate_before(vaults, i) {
        Some(RogueTraderError::DuplicateCounterparty)
    } else {
        None
    }
}

/// The error of the first account, from position `i` on, that fails its
/// checks; none when all pass.
pub open spec fn first_vault_account_error(
    vaults: Seq<AgentVault>,
    keys: Seq<Pubkey>,
    program_id: Seq<u8>,
    i: int,
) -> Option<RogueTraderError>
    decreases vaults.len() - i,
{
    if i < 0 || i >= vaults.len() {
        None
    } else if vault_account_error(vaults, keys, program_id, i) is Some {
        vault_account_error(vaults, keys, program_id, i)
    } else {
        first_vault_account_error(vaults, keys, program_id, i + 1)
    }
}

/// `seen[b]` records exactly the bot ids among the first `n` vaults.
pub open spec fn seen_matches(seen: Seq<bool>, vaults: Seq<AgentVault>, n: int) -> bool {
    &&& seen.len() == 31
    &&& forall|b: int|
        0 <= b < 31 ==> (#[trigger] seen[b] <==> exists|j: int|
            0 <= j < n && #[trigger] vaults[j].bot_id == b)
}

/// Check the vault accounts handed to a settlement or an expiry: each is the
/// derived vault address of its bot, its bot id is at most 30, and no bot
/// appears twice. The first failing account decides the error.
pub fn check_vault_accounts(vaults: &Vec<AgentVault>, keys: &Vec<Pubkey>, program_id: &Pubkey) -> (r:
    Result<(), RogueTraderError>)
    requires
        vaults@.len() == keys@.len(),
    ensures
        match first_vault_account_error(vaults@, keys@, program_id@, 0) {
            Some(e) => r == Err::<(), RogueTraderError>(e),
            None => r is Ok,
        },
{
    let n = vaults.len();
    let mut seen: [bool; 31] = [false; 31];
    let mut i: usize = 0;
    assert(seen_matches(seen@, vaults@, 0));
    while i < n
        invariant
            n == vaults@.len(),
            n == keys@.len(),
            i <= n,
            first_vault_account_error(vaults@, keys@, program_id@, 0)
                == first_vault_account_error(vaults@, keys@, program_id@, i as int),
            seen_matches(seen@, vaults@, i as int),
        decreases n - i,
    {
        let v = &vaults[i];
        if !vault_address_matches(&keys[i], v.bot_id, program_id) {
            return Err(RogueTraderError::InvalidCounterpartyVault);
        }
        let bid = v.bot_id as usize;
        if bid > 30 {
            return Err(RogueTraderError::InvalidCounterpartyVault);
        }
        if seen[bid] {
            assert(duplicate_before(vaults@, i as int));
            return Err(RogueTraderError::DuplicateCounterparty);
        }
        assert(!duplicate_before(vaults@, i as int));
        seen[bid] = true;
        assert(vault_account_error(vaults@, keys@, program_id@, i as int) is None);
        assert forall|b: int| 0 <= b < 31 implies (#[trigger] seen@[b] <==> exists|j: int|
            0 <= j < i + 1 && #[trigger] vaults@[j].bot_id == b) by {
            if b == bid {
                assert(vaults@[i as int].bot_id == b);
            }
        }
        i = i + 1;
    }
    Ok(())
}


/// Some vault among `vaults` belongs to `bot_id`.
pub open spec fn has_vault_of(vaults: Seq<AgentVault>, bot_id: u8) -> bool {
    exists|i: int| 0 <= i < vaults.len() && #[trigger] vaults[i].bot_id == bot_id
}

/// A position of the bet with a stake has no vault among those handed in.
pub open spec fn position_missing(bet: Bet, vaults: Seq<AgentVault>) -> bool {
    exists|k: int|
        0 <= k < bet.cp_count && #[trigger] bet.counterparties@[k].stake > 0 && !has_vault_of(
            vaults,
            bet.counterparties@[k].bot_id,
        )
}

/// The positions with a stake name bots 0..=30, the range the presence check
/// indexes.
pub open spec fn staked_positions_in_range(bet: Bet) -> bool {
    &&& bet.cp_count <= 29
    &&& forall|k: int|
        0 <= k < bet.cp_count && #[trigger] bet.counterparties@[k].stake > 0
            ==> bet.counterparties@[k].bot_id <= 30
}

fn contains_bot(vaults: &Vec<AgentVault>, bot_id: u8) -> (r: bool)
    ensures
        r == has_vault_of(vaults@, bot_id),
{
    let mut i: usize = 0;
    while i < vaults.len()
        invariant
            i <= vaults@.len(),
            forall|j: int| 0 <= j < i ==> vaults@[j].bot_id != bot_id,
        decreases vaults@.len() - i,
    {
        if vaults[i].bot_id == bot_id {
            return true;
        }
        i = i + 1;
    }
    false
}

/// Every position of the bet that holds a stake has its bot's vault among
/// those handed in.
pub fn check_positions_present(bet: &Bet, vaults: &Vec<AgentVault>) -> (r: Result<
    (),
    RogueTraderError,
>)
    requires
        staked_positions_in_range(*bet),
    ensures
        r is Err <==> position_missing(*bet, vaults@),
        r is Err ==> r == Err::<(), RogueTraderError>(RogueTraderError::MissingCounterparty),
{
    let n = bet.cp_count as usize;
    let mut k: usize = 0;
    while k < n
        invariant
            n == bet.cp_count,
            n <= 29,
            k <= n,
            bet.counterparties@.len() == 29,
            forall|j: int|
                0 <= j < k && #[trigger] bet.counterparties@[j].stake > 0 ==> has_vault_of(
                    vaults@,
                    bet.counterparties@[j].bot_id,
                ),
        decreases n - k,
    {
        let cp = bet.counterparties[k];
        if cp.stake > 0 {
            if !contains_bot(vaults, cp.bot_id) {
                assert(bet.counterparties@[k as int].stake > 0);
                return Err(RogueTraderError::MissingCounterparty);
            }
        }
        k = k + 1;
    }
    Ok(())
}

} // verus!
