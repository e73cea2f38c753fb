//! The rewards raffle: the whole rewards pool goes to one bot, drawn with
//! weights that favour bots with less capital, from a seed anyone can
//! recompute (BLAKE3 of the slot and the raffle number).

use vstd::prelude::*;
use vstd::bytes::{spec_u64_from_le_bytes, spec_u64_to_le_bytes, u64_from_le_bytes, u64_to_le_bytes};
use vstd::slice::slice_subrange;
use crate::clock::Clock;
use crate::crypto::{blake3_digest, blake3_hash};
use crate::error::RogueTraderError;
use crate::events::RaffleDrawn;
use crate::instructions::accounts::{is_vault_address, vault_address_matches};
use crate::pubkey::Pubkey;
use crate::state::agent_vault::AgentVault;
use crate::state::clearing_house::ClearingHouseState;

verus! {

/// Most vaults a raffle draws among.
pub const MAX_RAFFLE_VAULTS: usize = 30;

/// The raffle's state.
#[derive(Clone, Copy, Debug, PartialEq, Eq, Structural)]
pub struct RaffleState {
    pub raffle_paused: bool,
    pub rewards_pool_balance: u64,
    /// 0 until the first draw.
    pub last_raffle_timestamp: i64,
    /// 0 for no minimum interval.
    pub raffle_interval_secs: i64,
    pub total_raffles_drawn: u64,
    pub total_rewards_distributed: u64,
    pub last_winner_bot_id: u8,
    pub last_winner_amount: u64,
}

/// The largest of the balances (0 for none).
pub open spec fn max_balance(bs: Seq<u64>) -> u64
    decreases bs.len(),
{
    if bs.len() == 0 {
        0
    } else if bs.last() >= max_balance(bs.drop_last()) {
        bs.last()
    } else {
        max_balance(bs.drop_last())
    }
}

/// A vault's raffle weight: how far its balance is below the largest, plus one.
pub open spec fn raffle_weight(bs: Seq<u64>, i: int) -> int {
    max_balance(bs) - bs[i] + 1
}

/// Sum of the first `n` weights.
pub open spec fn weight_prefix(ws: Seq<u128>, n: int) -> int
    decreases n,
{
    if n <= 0 {
        0
    } else {
        weight_prefix(ws, n - 1) + ws[n - 1]
    }
}

proof fn lemma_max_balance(bs: Seq<u64>)
    ensures
        forall|i: int| 0 <= i < bs.len() ==> bs[i] <= max_balance(bs),
    decreases bs.len(),
{
    if bs.len() > 0 {
        lemma_max_balance(bs.drop_last());
        assert forall|i: int| 0 <= i < bs.len() implies bs[i] <= max_balance(bs) by {
            if i < bs.len() - 1 {
                assert(bs[i] == bs.drop_last()[i]);
            }
        }
    }
}

/// Every balance is at most the largest one.
pub proof fn lemma_max_balance_pub(bs: Seq<u64>)
    ensures
        forall|i: int| 0 <= i < bs.len() ==> bs[i] <= max_balance(bs),
{
    lemma_max_balance(bs);
}

proof fn lemma_prefix_monotone(ws: Seq<u128>, m: int, n: int)
    requires
        0 <= m <= n <= ws.len(),
    ensures
        weight_prefix(ws, m) <= weight_prefix(ws, n),
    decreases n - m,
{
    if m < n {
        lemma_prefix_monotone(ws, m, n - 1);
    }
}

/// Raffle weights of the balances and their total: each weight is the
/// largest balance less the vault's own, plus one.
pub fn raffle_weights(balances: &Vec<u64>) -> (r: (Vec<u128>, u128))
    requires
        balances@.len() <= MAX_RAFFLE_VAULTS,
    ensures
        r.0@.len() == balances@.len(),
        forall|i: int| 0 <= i < balances@.len() ==> #[trigger] r.0@[i] == raffle_weight(balances@, i),
        r.1 == weight_prefix(r.0@, balances@.len() as int),
{
    let n = balances.len();
    let mut max_aum: u64 = 0;
    let mut i: usize = 0;
    while i < n
        invariant
            n == balances@.len(),
            i <= n,
            max_aum == max_balance(balances@.subrange(0, i as int)),
        decreases n - i,
    {
        assert(balances@.subrange(0, i + 1).drop_last() =~= balances@.subrange(0, i as int));
        if balances[i] >= max_aum {
            max_aum = balances[i];
        }
        i = i + 1;
    }
    assert(balances@.subrange(0, n as int) =~= balances@);
    proof {
        lemma_max_balance(balances@);
    }
    let mut weights: Vec<u128> = Vec::new();
    let mut total: u128 = 0;
    let mut k: usize = 0;
    while k < n
        invariant
            n == balances@.len(),
            n <= MAX_RAFFLE_VAULTS,
            k <= n,
            max_aum == max_balance(balances@),
            forall|j: int| 0 <= j < n ==> balances@[j] <= max_aum,
            weights@.len() == k,
            forall|j: int| 0 <= j < k ==> #[trigger] weights@[j] == raffle_weight(balances@, j),
            total == weight_prefix(weights@, k as int),
            total <= k * 0x1_0000_0000_0000_0000,
        decreases n - k,
    {
        let w: u128 = (max_aum as u128) - (balances[k] as u128) + 1;
        let ghost old_w = weights@;
        weights.push(w);
        proof {
            lemma_prefix_same(weights@, old_w, k as int);
        }
        total = total + w;
        k = k + 1;
    }
    (weights, total)
}

proof fn lemma_prefix_same(a: Seq<u128>, b: Seq<u128>, n: int)
    requires
        0 <= n <= a.len(),
        n <= b.len(),
        forall|i: int| 0 <= i < n ==> a[i] == b[i],
    ensures
        weight_prefix(a, n) == weight_prefix(b, n),
    decreases n,
{
    if n > 0 {
        lemma_prefix_same(a, b, n - 1);
    }
}

/// The vault drawn for a random value: the one whose slice of the cumulated
/// weights holds `random % total`.
pub open spec fn drawn_index(ws: Seq<u128>, random: u64, total: u128, i: int) -> bool {
    &&& 0 <= i < ws.len()
    &&& weight_prefix(ws, i) <= (random as int) % (total as int) < weight_prefix(ws, i + 1)
}

/// Draw the winner for a random value: the first index whose cumulated
/// weight exceeds `random % total`.
pub fn select_winner(weights: &Vec<u128>, total: u128, random: u64) -> (r: usize)
    requires
        total > 0,
        total == weight_prefix(weights@, weights@.len() as int),
    ensures
        drawn_index(weights@, random, total, r as int),
        forall|j: int| 0 <= j < r ==> !drawn_index(weights@, random, total, j),
{
    let target: u128 = (random as u128) % total;
    let n = weights.len();
    let mut cumulative: u128 = 0;
    let mut i: usize = 0;
    while i < n
        invariant
            n == weights@.len(),
            i <= n,
            total == weight_prefix(weights@, n as int),
            cumulative == weight_prefix(weights@, i as int),
            target == (random as int) % (total as int),
            target < total,
            cumulative <= target,
            forall|j: int| 0 <= j < i ==> !drawn_index(weights@, random, total, j),
        decreases n - i,
    {
        proof {
            lemma_prefix_monotone(weights@, i + 1, n as int);
        }
        cumulative = cumulative + weights[i];
        if target < cumulative {
            return i;
        }
        i = i + 1;
    }
    assert(false);
    0
}

/// The 16 bytes hashed for the seed: the slot then the raffle number,
/// little-endian.
pub open spec fn seed_input(slot: u64, raffle_number: u64) -> Seq<u8> {
    spec_u64_to_le_bytes(slot) + spec_u64_to_le_bytes(raffle_number)
}

/// The random value of a draw: the first 8 bytes of the BLAKE3 digest of the
/// seed input, little-endian.
pub open spec fn raffle_random(slot: u64, raffle_number: u64) -> u64 {
    spec_u64_from_le_bytes(blake3_digest(seed_input(slot, raffle_number)).subrange(0, 8))
}

/// The random value of a draw from the slot and the raffle number.
pub fn raffle_seed(slot: u64, raffle_number: u64) -> (r: u64)
    ensures
        r == raffle_random(slot, raffle_number),
{
    let mut input = u64_to_le_bytes(slot);
    let mut nonce = u64_to_le_bytes(raffle_number);
    input.append(&mut nonce);
    let hash = blake3_hash(input.as_slice());
    u64_from_le_bytes(slice_subrange(hash.as_slice(), 0, 8))
}

/// The first check a draw fails: settler signer, raffle not paused, a
/// non-empty pool, the interval since the last draw elapsed.
pub open spec fn raffle_guard_error(ch: ClearingHouseState, rs: RaffleState, settler: Seq<u8>, now: i64) -> Option<
    RogueTraderError,
> {
    if settler != ch.settler@ {
        Some(RogueTraderError::UnauthorizedSettler)
    } else if rs.raffle_paused {
        Some(RogueTraderError::RafflePaused)
    } else if rs.rewards_pool_balance == 0 {
        Some(RogueTraderError::EmptyRewardsPool)
    } else if rs.last_raffle_timestamp > 0 && rs.raffle_interval_secs > 0
        && rs.last_raffle_timestamp + rs.raffle_interval_secs > i64::MAX {
        Some(RogueTraderError::MathOverflow)
    } else if rs.last_raffle_timestamp > 0 && rs.raffle_interval_secs > 0 && now
        < rs.last_raffle_timestamp + rs.raffle_interval_secs {
        Some(RogueTraderError::RaffleTooEarly)
    } else {
        None
    }
}

/// The first vault account that fails: not the derived vault address, or
/// beyond the 30th.
pub open spec fn raffle_account_error(vaults: Seq<AgentVault>, keys: Seq<Pubkey>, program_id: Seq<u8>) -> Option<
    RogueTraderError,
> {
    if exists|i: int|
        0 <= i < vaults.len() && i < 30 && !#[trigger] is_vault_address(
            keys[i]@,
            vaults[i].bot_id,
            program_id,
        ) {
        Some(RogueTraderError::InvalidCounterpartyVault)
    } else if vaults.len() > 30 {
        if !is_vault_address(keys[30]@, vaults[30].bot_id, program_id) {
            Some(RogueTraderError::InvalidCounterpartyVault)
        } else {
            Some(RogueTraderError::InvalidBotId)
        }
    } else {
        None
    }
}

fn collect_balances(vaults: &Vec<AgentVault>, keys: &Vec<Pubkey>, program_id: &Pubkey) -> (r: Result<
    Vec<u64>,
    RogueTraderError,
>)
    requires
        vaults@.len() == keys@.len(),
    ensures
        match raffle_account_error(vaults@, keys@, program_id@) {
            Some(e) => r == Err::<Vec<u64>, RogueTraderError>(e),
            None => r matches Ok(bs) && bs@.len() == vaults@.len() && forall|i: int|
                0 <= i < vaults@.len() ==> #[trigger] bs@[i] == vaults@[i].sol_balance,
        },
{
    let n = vaults.len();
    let mut balances: Vec<u64> = Vec::new();
    let mut i: usize = 0;
    while i < n
        invariant
            n == vaults@.len(),
            n == keys@.len(),
            i <= n,
            i <= 30,
            balances@.len() == i,
            forall|j: int| 0 <= j < i ==> #[trigger] balances@[j] == vaults@[j].sol_balance,
            forall|j: int| 0 <= j < i ==> is_vault_address(keys@[j]@, vaults@[j].bot_id, program_id@),
        decreases n - i,
    {
        if !vault_address_matches(&keys[i], vaults[i].bot_id, program_id) {
            if i < 30 {
                assert(!is_vault_address(keys@[i as int]@, vaults@[i as int].bot_id, program_id@));
            }
            return Err(RogueTraderError::InvalidCounterpartyVault);
        }
        if i >= MAX_RAFFLE_VAULTS {
            return Err(RogueTraderError::InvalidBotId);
        }
        balances.push(vaults[i].sol_balance);
        i = i + 1;
    }
    Ok(balances)
}

/// Index of the first vault of bot `bot_id`, if any.
pub open spec fn first_vault_of(vaults: Seq<AgentVault>, bot_id: u8, i: int) -> bool {
    &&& 0 <= i < vaults.len()
    &&& vaults[i].bot_id == bot_id
    &&& forall|j: int| 0 <= j < i ==> vaults[j].bot_id != bot_id
}

fn find_vault(vaults: &Vec<AgentVault>, bot_id: u8) -> (r: Option<usize>)
    ensures
        match r {
            Some(i) => first_vault_of(vaults@, bot_id, i as int),
            None => forall|j: int| 0 <= j < vaults@.len() ==> vaults@[j].bot_id != bot_id,
        },
{
    let mut i: usize = 0;
    while i < vaults.len()
        invariant
            i <= vaults@.len(),
            forall|j: int| 0 <= j < i ==> vaults@[j].bot_id != bot_id,
        decreases vaults@.len() - i,
    {
        if vaults[i].bot_id == bot_id {
            return Some(i);
        }
        i = i + 1;
    }
    None
}

/// Draw the raffle: check the guards and the vault accounts (at most 30),
/// weight each vault by how far its balance is below the richest one's (plus
/// one), pick the winner from the seed, credit it the whole pool, and record
/// the draw. On an error nothing changes.
pub fn handler(
    rs: &mut RaffleState,
    ch: &ClearingHouseState,
    settler: &Pubkey,
    clock: &Clock,
    vaults: &mut Vec<AgentVault>,
    vault_keys: &Vec<Pubkey>,
    program_id: &Pubkey,
) -> (r: Result<RaffleDrawn, RogueTraderError>)
    requires
        old(vaults)@.len() == vault_keys@.len(),
        raffle_guard_error(*ch, *old(rs), settler@, clock.unix_timestamp) is None ==> (
        raffle_account_error(old(vaults)@, vault_keys@, program_id@) is Some || old(
            vaults,
        )@.len() > 0),
    ensures
        raffle_guard_error(*ch, *old(rs), settler@, clock.unix_timestamp) is Some ==> r == Err::<
            RaffleDrawn,
            RogueTraderError,
        >(raffle_guard_error(*ch, *old(rs), settler@, clock.unix_timestamp)->0),
        raffle_guard_error(*ch, *old(rs), settler@, clock.unix_timestamp) is None
            && raffle_account_error(old(vaults)@, vault_keys@, program_id@) is Some ==> r == Err::<
            RaffleDrawn,
            RogueTraderError,
        >(raffle_account_error(old(vaults)@, vault_keys@, program_id@)->0),
        r is Err && raffle_guard_error(*ch, *old(rs), settler@, clock.unix_timestamp) is None
            && raffle_account_error(old(vaults)@, vault_keys@, program_id@) is None ==> r
            == Err::<RaffleDrawn, RogueTraderError>(RogueTraderError::MathOverflow),
        raffle_guard_error(*ch, *old(rs), settler@, clock.unix_timestamp) is None
            && raffle_account_error(old(vaults)@, vault_keys@, program_id@) is None && (forall|i: int|
            0 <= i < old(vaults)@.len() ==> #[trigger] old(vaults)@[i].sol_balance
                + old(rs).rewards_pool_balance <= u64::MAX) && old(rs).total_raffles_drawn + 1
            <= u64::MAX && old(rs).total_rewards_distributed + old(rs).rewards_pool_balance
            <= u64::MAX ==> r is Ok,
        r is Err ==> *final(rs) == *old(rs) && final(vaults)@ == old(vaults)@,
        r matches Ok(ev) ==> {
            let v0 = old(vaults)@;
            let bs = Seq::new(v0.len(), |i: int| v0[i].sol_balance);
            let random = raffle_random(clock.slot, old(rs).total_raffles_drawn);
            let reward = old(rs).rewards_pool_balance;
            &&& raffle_guard_error(*ch, *old(rs), settler@, clock.unix_timestamp) is None
            &&& raffle_account_error(v0, vault_keys@, program_id@) is None
            &&& exists|w: int, ws: Seq<u128>|
                {
                    &&& ws.len() == v0.len()
                    &&& (forall|i: int| 0 <= i < v0.len() ==> #[trigger] ws[i] == raffle_weight(bs, i))
                    &&& weight_prefix(ws, v0.len() as int) <= u128::MAX
                    &&& drawn_index(ws, random, (#[verifier::truncate] (weight_prefix(ws, v0.len() as int) as u128)), w)
                    &&& ev.winner_bot_id == v0[w].bot_id
                    &&& ev.total_weight == (#[verifier::truncate] (weight_prefix(ws, v0.len() as int) as u64))
                }
            &&& exists|k: int|
                #![trigger first_vault_of(v0, ev.winner_bot_id, k)]
                first_vault_of(v0, ev.winner_bot_id, k) && final(vaults)@ == v0.update(
                    k,
                    AgentVault { sol_balance: (v0[k].sol_balance + reward) as u64, ..v0[k] },
                )
            &&& *final(rs) == (RaffleState {
                rewards_pool_balance: 0,
                last_raffle_timestamp: clock.unix_timestamp,
                total_raffles_drawn: (old(rs).total_raffles_drawn + 1) as u64,
                total_rewards_distributed: (old(rs).total_rewards_distributed + reward) as u64,
                last_winner_bot_id: ev.winner_bot_id,
                last_winner_amount: reward,
                ..*old(rs)
            })
            &&& ev.raffle_number == old(rs).total_raffles_drawn
            &&& ev.reward_amount == reward
            &&& ev.slot == clock.slot
            &&& ev.timestamp == clock.unix_timestamp
        },
{
    if !settler.key_eq(&ch.settler) {
        return Err(RogueTraderError::UnauthorizedSettler);
    }
    if rs.raffle_paused {
        return Err(RogueTraderError::RafflePaused);
    }
    if rs.rewards_pool_balance == 0 {
        return Err(RogueTraderError::EmptyRewardsPool);
    }
    let now = clock.unix_timestamp;
    if rs.last_raffle_timestamp > 0 && rs.raffle_interval_secs > 0 {
        let next_raffle_time = match rs.last_raffle_timestamp.checked_add(rs.raffle_interval_secs) {
            Some(t) => t,
            None => {
                return Err(RogueTraderError::MathOverflow);
            },
        };
        if now < next_raffle_time {
            return Err(RogueTraderError::RaffleTooEarly);
        }
    }
    let reward_amount = rs.rewards_pool_balance;
    let raffle_number = rs.total_raffles_drawn;
    let balances = collect_balances(vaults, vault_keys, program_id)?;
    assert(balances@ =~= Seq::new(vaults@.len(), |i: int| vaults@[i].sol_balance));
    let (weights, total_weight) = raffle_weights(&balances);
    assert(raffle_account_error(vaults@, vault_keys@, program_id@) is None);
    assert(raffle_guard_error(*ch, *old(rs), settler@, clock.unix_timestamp) is None);
    assert(weights@.len() > 0);
    proof {
        assert(weights@[0] == raffle_weight(balances@, 0));
        lemma_max_balance(balances@);
        lemma_prefix_monotone(weights@, 1, weights@.len() as int);
        assert(weight_prefix(weights@, 0) == 0);
        assert(weight_prefix(weights@, 1) == weights@[0]);
        assert(balances@[0] <= max_balance(balances@));
        assert(total_weight > 0);
    }
    let random_value = raffle_seed(clock.slot, raffle_number);
    let winner_idx = select_winner(&weights, total_weight, random_value);
    let winner_bot_id = vaults[winner_idx].bot_id;
    let drawn = match raffle_number.checked_add(1) {
        Some(x) => x,
        None => {
            return Err(RogueTraderError::MathOverflow);
        },
    };
    let distributed = match rs.total_rewards_distributed.checked_add(reward_amount) {
        Some(x) => x,
        None => {
            return Err(RogueTraderError::MathOverflow);
        },
    };
    let ghost v0 = vaults@;
    match find_vault(vaults, winner_bot_id) {
        Some(k) => {
            let mut v = vaults[k];
            v.sol_balance = match v.sol_balance.checked_add(reward_amount) {
                Some(b) => b,
                None => {
                    return Err(RogueTraderError::MathOverflow);
                },
            };
            vaults[k] = v;
            assert(vaults@ == v0.update(k as int, v));
        },
        None => {
            assert(false);
        },
    }
    rs.rewards_pool_balance = 0;
    rs.last_raffle_timestamp = now;
    rs.total_raffles_drawn = drawn;
    rs.total_rewards_distributed = distributed;
    rs.last_winner_bot_id = winner_bot_id;
    rs.last_winner_amount = reward_amount;
    Ok(
        RaffleDrawn {
            raffle_number,
            winner_bot_id,
            reward_amount,
            slot: clock.slot,
            timestamp: now,
            total_weight: #[verifier::truncate] (total_weight as u64),
        },
    )
}

} // verus!
