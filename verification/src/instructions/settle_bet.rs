//! Settling an expired bet: the outcome from entry and exit prices, and the
//! transfer of the stakes between proposer and counterparties.

use vstd::prelude::*;
use crate::clock::Clock;
use crate::error::{ProgramError, RogueTraderError};
use crate::events::BetSettled;
use crate::instructions::accounts::{
    check_positions_present,
    check_vault_accounts,
    first_vault_account_error,
    position_missing,
    staked_positions_in_range,
};
use crate::instructions::price::{
    checked_price,
    data_conf,
    data_exponent,
    data_price,
    data_publish_time,
    price_message_error,
};
use crate::pubkey::Pubkey;
use crate::pyth::{PriceUpdateV2, price_decodes};
use crate::state::agent_vault::{AgentVault, effective_window, window_after_record};
use crate::state::bet::{
    Bet,
    OUTCOME_PROPOSER_LOST,
    OUTCOME_PROPOSER_WON,
    OUTCOME_TIE,
    bet_outcome,
    spec_outcome,
    stake_of,
};
use crate::state::clearing_house::{ClearingHouseState, spec_settle_buffer};

verus! {

/// The first check on the accounts and the timing that fails: the proposer
/// vault must be the bet's, the signer the settler, the bet unsettled and
/// expired, the settlement within the buffer after expiry, and the price
/// account the bet's feed.
pub open spec fn settle_guard_error(
    ch: ClearingHouseState,
    proposer: AgentVault,
    bet: Bet,
    settler: Seq<u8>,
    feed: Seq<u8>,
    now: i64,
) -> Option<RogueTraderError> {
    let deadline = bet.expiry_timestamp + spec_settle_buffer(ch);
    if proposer.bot_id != bet.proposer_bot {
        Some(RogueTraderError::VaultBetMismatch)
    } else if settler != ch.settler@ {
        Some(RogueTraderError::UnauthorizedSettler)
    } else if bet.settled {
        Some(RogueTraderError::BetAlreadySettled)
    } else if now < bet.expiry_timestamp {
        Some(RogueTraderError::BetNotExpired)
    } else if deadline > i64::MAX {
        Some(RogueTraderError::MathOverflow)
    } else if now > deadline {
        Some(RogueTraderError::SettlementWindowExpired)
    } else if feed != bet.pyth_feed@ {
        Some(RogueTraderError::FeedMismatch)
    } else {
        None
    }
}

/// The first check the exit price fails: decoding, freshness, sign,
/// confidence, and an exponent equal to the entry exponent.
pub open spec fn exit_price_error(d: Seq<u8>, now: i64, entry_expo: i32) -> Option<ProgramError> {
    if !price_decodes(d) {
        Some(ProgramError::InvalidAccountData)
    } else if price_message_error(data_publish_time(d), data_price(d), data_conf(d), now) is Some {
        Some(
            ProgramError::Program(
                price_message_error(data_publish_time(d), data_price(d), data_conf(d), now)->0,
            ),
        )
    } else if data_exponent(d) != entry_expo {
        Some(ProgramError::Program(RogueTraderError::ExponentChanged))
    } else {
        None
    }
}

/// A counterparty's winnings when the proposer lost: its share of the
/// proposer's stake in proportion to its share of the pool.
pub open spec fn cp_gain(stake: u64, proposer_stake: u64, cp_pool: u64) -> u64 {
    ((stake as int) * (proposer_stake as int) / (cp_pool as int)) as u64
}

/// Crediting the counterparty's winnings would overflow its balance.
pub open spec fn cp_settle_overflows(
    v: AgentVault,
    stake: u64,
    outcome: u8,
    proposer_stake: u64,
    cp_pool: u64,
) -> bool {
    &&& stake > 0
    &&& outcome == OUTCOME_PROPOSER_LOST
    &&& cp_pool > 0
    &&& v.sol_balance + cp_gain(stake, proposer_stake, cp_pool) > u64::MAX
}

/// A counterparty's vault after settlement: its stake unlocked; its stake
/// lost if the proposer won, its winnings credited if the proposer lost,
/// nothing else on a tie. Vaults without a stake in the bet are untouched.
pub open spec fn cp_after_settle(
    v: AgentVault,
    stake: u64,
    outcome: u8,
    proposer_stake: u64,
    cp_pool: u64,
) -> AgentVault {
    if stake == 0 {
        v
    } else {
        AgentVault {
            locked_sol: v.locked_sol.saturating_sub(stake),
            counterparty_locked_sol: v.counterparty_locked_sol.saturating_sub(stake),
            sol_balance: if outcome == OUTCOME_PROPOSER_WON {
                v.sol_balance.saturating_sub(stake)
            } else if outcome == OUTCOME_PROPOSER_LOST && cp_pool > 0 {
                (v.sol_balance + cp_gain(stake, proposer_stake, cp_pool)) as u64
            } else {
                v.sol_balance
            },
            ..v
        }
    }
}

/// Counters and identity of the proposer that settlement leaves alone.
pub open spec fn proposer_fixed_fields(a: AgentVault, b: AgentVault) -> bool {
    &&& a.bot_id == b.bot_id
    &&& a.group_id == b.group_id
    &&& a.name == b.name
    &&& a.lp_mint == b.lp_mint
    &&& a.lp_authority == b.lp_authority
    &&& a.lp_mint_bump == b.lp_mint_bump
    &&& a.lp_authority_bump == b.lp_authority_bump
    &&& a.total_lp_supply == b.total_lp_supply
    &&& a.total_deposited == b.total_deposited
    &&& a.total_withdrawn == b.total_withdrawn
    &&& a.deposit_count == b.deposit_count
    &&& a.withdrawal_count == b.withdrawal_count
    &&& a.authorized_executor == b.authorized_executor
    &&& a.bets_proposed == b.bets_proposed
    &&& a.bump == b.bump
    &&& a.counterparty_locked_sol == b.counterparty_locked_sol
    &&& a._reserved == b._reserved
}

/// The proposer's vault after settlement: stake unlocked and one active bet
/// fewer; on a win the pool credited, the win counted and recorded in the
/// window; on a loss the stake debited, the loss counted and recorded; on a
/// tie only the tie counted.
pub open spec fn proposer_settled(
    old: AgentVault,
    new: AgentVault,
    outcome: u8,
    stake: u64,
    cp_pool: u64,
    window_size: u8,
) -> bool {
    let ws = effective_window(window_size);
    let rec = window_after_record(
        old.bet_window@,
        old.window_head as int,
        old.window_count as int,
        old.wins_in_window as int,
        outcome == OUTCOME_PROPOSER_WON,
        ws,
    );
    &&& proposer_fixed_fields(old, new)
    &&& new.locked_sol == old.locked_sol.saturating_sub(stake)
    &&& new.active_bet_count == old.active_bet_count.saturating_sub(1)
    &&& new.sol_balance == (if outcome == OUTCOME_PROPOSER_WON {
        (old.sol_balance + cp_pool) as u64
    } else if outcome == OUTCOME_PROPOSER_LOST {
        old.sol_balance.saturating_sub(stake)
    } else {
        old.sol_balance
    })
    &&& new.bets_won == old.bets_won + (if outcome == OUTCOME_PROPOSER_WON { 1int } else { 0int })
    &&& new.bets_lost == old.bets_lost + (if outcome == OUTCOME_PROPOSER_LOST { 1int } else { 0int })
    &&& new.bets_tied == old.bets_tied + (if outcome == OUTCOME_TIE { 1int } else { 0int })
    &&& if outcome == OUTCOME_TIE {
        &&& new.bet_window == old.bet_window
        &&& new.window_head == old.window_head
        &&& new.window_count == old.window_count
        &&& new.wins_in_window == old.wins_in_window
    } else {
        &&& new.bet_window@ == rec.0
        &&& new.window_head == rec.1
        &&& new.window_count == rec.2
        &&& new.wins_in_window == rec.3
    }
}

/// Exit-price fields as decoded from the price account.
pub open spec fn spec_exit_outcome(bet: Bet, d: Seq<u8>) -> u8 {
    spec_outcome(bet.direction, bet.entry_price, data_price(d))
}

/// The error settlement ends with, checks in order; none when it succeeds.
pub open spec fn settle_error(
    ch: ClearingHouseState,
    proposer: AgentVault,
    bet: Bet,
    settler: Seq<u8>,
    feed: Seq<u8>,
    d: Seq<u8>,
    now: i64,
    vaults: Seq<AgentVault>,
    keys: Seq<Pubkey>,
    program_id: Seq<u8>,
) -> Option<ProgramError> {
    let outcome = spec_exit_outcome(bet, d);
    if settle_guard_error(ch, proposer, bet, settler, feed, now) is Some {
        Some(ProgramError::Program(settle_guard_error(ch, proposer, bet, settler, feed, now)->0))
    } else if exit_price_error(d, now, bet.entry_expo) is Some {
        exit_price_error(d, now, bet.entry_expo)
    } else if first_vault_account_error(vaults, keys, program_id, 0) is Some {
        Some(ProgramError::Program(first_vault_account_error(vaults, keys, program_id, 0)->0))
    } else if position_missing(bet, vaults) {
        Some(ProgramError::Program(RogueTraderError::MissingCounterparty))
    } else if exists|i: int|
        0 <= i < vaults.len() && #[trigger] cp_settle_overflows(
            vaults[i],
            stake_of(bet.counterparties@, bet.cp_count as int, vaults[i].bot_id),
            outcome,
            bet.proposer_stake,
            bet.counterparty_pool,
        ) {
        Some(ProgramError::Program(RogueTraderError::MathOverflow))
    } else if outcome == OUTCOME_PROPOSER_WON && proposer.sol_balance + bet.counterparty_pool
        > u64::MAX {
        Some(ProgramError::Program(RogueTraderError::MathOverflow))
    } else if ch.total_bets_settled + 1 > u64::MAX {
        Some(ProgramError::Program(RogueTraderError::MathOverflow))
    } else {
        None
    }
}

/// The first guard a settlement fails: the proposer's vault, the settler's
/// signature, the bet's state, the settlement window and the price feed;
/// none when all pass.
pub fn settle_guard(
    ch: &ClearingHouseState,
    proposer: &AgentVault,
    bet: &Bet,
    settler: &Pubkey,
    pyth_feed: &Pubkey,
    now: i64,
) -> (r: Option<RogueTraderError>)
    ensures
        r == settle_guard_error(*ch, *proposer, *bet, settler@, pyth_feed@, now),
{
    if proposer.bot_id != bet.proposer_bot {
        return Some(RogueTraderError::VaultBetMismatch);
    }
    if !settler.key_eq(&ch.settler) {
        return Some(RogueTraderError::UnauthorizedSettler);
    }
    if bet.settled {
        return Some(RogueTraderError::BetAlreadySettled);
    }
    if now < bet.expiry_timestamp {
        return Some(RogueTraderError::BetNotExpired);
    }
    let buffer = ch.settle_buffer();
    let max_settle_time = match bet.expiry_timestamp.checked_add(buffer) {
        Some(t) => t,
        None => {
            return Some(RogueTraderError::MathOverflow);
        },
    };
    if now > max_settle_time {
        return Some(RogueTraderError::SettlementWindowExpired);
    }
    if !pyth_feed.key_eq(&bet.pyth_feed) {
        return Some(RogueTraderError::FeedMismatch);
    }
    None
}

/// Whether crediting some counterparty's winnings would overflow its
/// balance.
fn any_settle_overflow(bet: &Bet, outcome: u8, vaults: &Vec<AgentVault>) -> (r: bool)
    requires
        bet.cp_count <= 29,
    ensures
        r == exists|i: int|
            0 <= i < vaults@.len() && #[trigger] cp_settle_overflows(
                vaults@[i],
                stake_of(bet.counterparties@, bet.cp_count as int, vaults@[i].bot_id),
                outcome,
                bet.proposer_stake,
                bet.counterparty_pool,
            ),
{
    let n = vaults.len();
    let proposer_stake = bet.proposer_stake;
    let cp_pool = bet.counterparty_pool;
    let mut i: usize = 0;
    while i < n
        invariant
            n == vaults@.len(),
            i <= n,
            bet.cp_count <= 29,
            proposer_stake == bet.proposer_stake,
            cp_pool == bet.counterparty_pool,
            forall|j: int|
                0 <= j < i ==> !#[trigger] cp_settle_overflows(
                    vaults@[j],
                    stake_of(bet.counterparties@, bet.cp_count as int, vaults@[j].bot_id),
                    outcome,
                    proposer_stake,
                    cp_pool,
                ),
        decreases n - i,
    {
        let v = vaults[i];
        let stake = bet.counterparty_stake(v.bot_id);
        if stake > 0 && outcome == OUTCOME_PROPOSER_LOST && cp_pool > 0 {
            assert((stake as u128) * (proposer_stake as u128) <= u128::MAX) by (nonlinear_arith)
                requires
                    stake <= u64::MAX,
                    proposer_stake <= u64::MAX,
            ;
            let gain_wide: u128 = (stake as u128) * (proposer_stake as u128) / (cp_pool as u128);
            let gain: u64 = #[verifier::truncate] (gain_wide as u64);
            assert(gain == cp_gain(stake, proposer_stake, cp_pool));
            if v.sol_balance.checked_add(gain).is_none() {
                assert(cp_settle_overflows(
                    vaults@[i as int],
                    stake_of(bet.counterparties@, bet.cp_count as int, vaults@[i as int].bot_id),
                    outcome,
                    proposer_stake,
                    cp_pool,
                ));
                return true;
            }
        }
        i = i + 1;
    }
    false
}

fn settle_counterparties(
    bet: &Bet,
    outcome: u8,
    vaults: &mut Vec<AgentVault>,
) -> (r: Result<(), RogueTraderError>)
    requires
        bet.cp_count <= 29,
    ensures
        r is Err <==> exists|i: int|
            0 <= i < old(vaults)@.len() && #[trigger] cp_settle_overflows(
                old(vaults)@[i],
                stake_of(bet.counterparties@, bet.cp_count as int, old(vaults)@[i].bot_id),
                outcome,
                bet.proposer_stake,
                bet.counterparty_pool,
            ),
        r is Err ==> r == Err::<(), RogueTraderError>(RogueTraderError::MathOverflow),
        r is Ok ==> final(vaults)@.len() == old(vaults)@.len() && forall|i: int|
            0 <= i < old(vaults)@.len() ==> #[trigger] final(vaults)@[i] == cp_after_settle(
                old(vaults)@[i],
                stake_of(bet.counterparties@, bet.cp_count as int, old(vaults)@[i].bot_id),
                outcome,
                bet.proposer_stake,
                bet.counterparty_pool,
            ),
{
    let ghost orig = vaults@;
    assert(orig == old(vaults)@);
    let n = vaults.len();
    let proposer_stake = bet.proposer_stake;
    let cp_pool = bet.counterparty_pool;
    let mut i: usize = 0;
    while i < n
        invariant
            n == orig.len(),
            orig == old(vaults)@,
            vaults@.len() == n,
            i <= n,
            bet.cp_count <= 29,
            proposer_stake == bet.proposer_stake,
            cp_pool == bet.counterparty_pool,
            forall|j: int|
                0 <= j < i ==> #[trigger] vaults@[j] == cp_after_settle(
                    orig[j],
                    stake_of(bet.counterparties@, bet.cp_count as int, orig[j].bot_id),
                    outcome,
                    proposer_stake,
                    cp_pool,
                ),
            forall|j: int| i <= j < n ==> #[trigger] vaults@[j] == orig[j],
            forall|j: int|
                0 <= j < i ==> !#[trigger] cp_settle_overflows(
                    orig[j],
                    stake_of(bet.counterparties@, bet.cp_count as int, orig[j].bot_id),
                    outcome,
                    proposer_stake,
                    cp_pool,
                ),
        decreases n - i,
    {
        let v = vaults[i];
        let stake = bet.counterparty_stake(v.bot_id);
        if stake > 0 {
            let mut nv = v;
            nv.locked_sol = nv.locked_sol.saturating_sub(stake);
            nv.counterparty_locked_sol = nv.counterparty_locked_sol.saturating_sub(stake);
            if outcome == OUTCOME_PROPOSER_WON {
                nv.sol_balance = nv.sol_balance.saturating_sub(stake);
            } else if outcome == OUTCOME_PROPOSER_LOST {
                if cp_pool > 0 {
                    assert((stake as u128) * (proposer_stake as u128) <= u128::MAX)
                        by (nonlinear_arith)
                        requires
                            stake <= u64::MAX,
                            proposer_stake <= u64::MAX,
                    ;
                    let gain_wide: u128 = (stake as u128) * (proposer_stake as u128) / (
                    cp_pool as u128);
                    let gain: u64 = #[verifier::truncate] (gain_wide as u64);
                    assert(gain == cp_gain(stake, proposer_stake, cp_pool));
                    match nv.sol_balance.checked_add(gain) {
                        Some(b) => {
                            nv.sol_balance = b;
                        },
                        None => {
                            assert(cp_settle_overflows(
                                old(vaults)@[i as int],
                                stake_of(
                                    bet.counterparties@,
                                    bet.cp_count as int,
                                    old(vaults)@[i as int].bot_id,
                                ),
                                outcome,
                                proposer_stake,
                                cp_pool,
                            ));
                            return Err(RogueTraderError::MathOverflow);
                        },
                    }
                }
            }
            assert(nv == cp_after_settle(v, stake, outcome, proposer_stake, cp_pool));
            vaults[i] = nv;
        }
        i = i + 1;
    }
    Ok(())
}

/// Settle an expired bet within its settlement window: check the accounts,
/// the timing and the exit price, decide the outcome, move the stakes
/// between the proposer and the counterparties, record the outcome in the
/// proposer's window, and mark the bet settled.
///
/// `vaults` are the counterparty vault accounts, `vault_keys` their
/// addresses. On an error nothing changes.
pub fn handler(
    ch: &mut ClearingHouseState,
    proposer: &mut AgentVault,
    bet: &mut Bet,
    settler: &Pubkey,
    pyth_feed: &Pubkey,
    price_data: &[u8],
    clock: &Clock,
    vaults: &mut Vec<AgentVault>,
    vault_keys: &Vec<Pubkey>,
    program_id: &Pubkey,
) -> (r: Result<BetSettled, ProgramError>)
    requires
        old(vaults)@.len() == vault_keys@.len(),
        settle_guard_error(*old(ch), *old(proposer), *old(bet), settler@, pyth_feed@, clock.unix_timestamp)
            is None && exit_price_error(price_data@, clock.unix_timestamp, old(bet).entry_expo) is None
            && first_vault_account_error(old(vaults)@, vault_keys@, program_id@, 0) is None
            ==> staked_positions_in_range(*old(bet)),
        settle_guard_error(*old(ch), *old(proposer), *old(bet), settler@, pyth_feed@, clock.unix_timestamp)
            is None && exit_price_error(price_data@, clock.unix_timestamp, old(bet).entry_expo) is None
            ==> {
            let outcome = spec_exit_outcome(*old(bet), price_data@);
            let ws = old(ch).odds_window_size;
            &&& outcome == OUTCOME_PROPOSER_WON ==> old(proposer).win_record_ok(true, ws)
                && old(proposer).bets_won < u32::MAX
            &&& outcome == OUTCOME_PROPOSER_LOST ==> old(proposer).win_record_ok(false, ws)
                && old(proposer).bets_lost < u32::MAX
            &&& outcome == OUTCOME_TIE ==> old(proposer).bets_tied < u32::MAX
        },
    ensures
        match settle_error(
            *old(ch),
            *old(proposer),
            *old(bet),
            settler@,
            pyth_feed@,
            price_data@,
            clock.unix_timestamp,
            old(vaults)@,
            vault_keys@,
            program_id@,
        ) {
            Some(e) => {
                &&& r == Err::<BetSettled, ProgramError>(e)
                &&& *final(ch) == *old(ch)
                &&& *final(proposer) == *old(proposer)
                &&& *final(bet) == *old(bet)
                &&& final(vaults)@ == old(vaults)@
            },
            None => {
                let outcome = spec_exit_outcome(*old(bet), price_data@);
                let b = *old(bet);
                &&& r == Ok::<BetSettled, ProgramError>(
                    BetSettled {
                        bet_id: b.bet_id,
                        proposer_bot: old(proposer).bot_id,
                        outcome,
                        entry_price: b.entry_price,
                        exit_price: data_price(price_data@),
                        proposer_stake: b.proposer_stake,
                        counterparty_pool: b.counterparty_pool,
                        tax_amount: 0,
                        timestamp: clock.unix_timestamp,
                    },
                )
                &&& *final(bet) == Bet {
                    settled: true,
                    outcome,
                    exit_price: data_price(price_data@),
                    exit_conf: data_conf(price_data@),
                    settle_timestamp: clock.unix_timestamp,
                    ..b
                }
                &&& *final(ch) == ClearingHouseState {
                    total_bets_settled: (old(ch).total_bets_settled + 1) as u64,
                    ..*old(ch)
                }
                &&& proposer_settled(
                    *old(proposer),
                    *final(proposer),
                    outcome,
                    b.proposer_stake,
                    b.counterparty_pool,
                    old(ch).odds_window_size,
                )
                &&& final(vaults)@.len() == old(vaults)@.len()
                &&& forall|i: int|
                    0 <= i < old(vaults)@.len() ==> #[trigger] final(vaults)@[i]
                        == cp_after_settle(
                        old(vaults)@[i],
                        stake_of(b.counterparties@, b.cp_count as int, old(vaults)@[i].bot_id),
                        outcome,
                        b.proposer_stake,
                        b.counterparty_pool,
                    )
            },
        },
{
    if let Some(e) = settle_guard(ch, proposer, bet, settler, pyth_feed, clock.unix_timestamp) {
        return Err(ProgramError::Program(e));
    }
    let now = clock.unix_timestamp;
    // Exit price
    let update = PriceUpdateV2::try_deserialize(price_data)?;
    let msg = match checked_price(&update, clock) {
        Ok(m) => m,
        Err(e) => {
            return Err(ProgramError::Program(e));
        },
    };
    if msg.exponent != bet.entry_expo {
        return Err(ProgramError::Program(RogueTraderError::ExponentChanged));
    }
    let exit_price = msg.price;
    let exit_conf = msg.conf;
    let outcome = bet_outcome(bet.direction, bet.entry_price, exit_price);
    // Counterparty accounts
    match check_vault_accounts(vaults, vault_keys, program_id) {
        Ok(()) => {},
        Err(e) => {
            return Err(ProgramError::Program(e));
        },
    }
    match check_positions_present(bet, vaults) {
        Ok(()) => {},
        Err(e) => {
            return Err(ProgramError::Program(e));
        },
    }
    if any_settle_overflow(bet, outcome, vaults) {
        return Err(ProgramError::Program(RogueTraderError::MathOverflow));
    }
    if outcome == OUTCOME_PROPOSER_WON && proposer.sol_balance.checked_add(bet.counterparty_pool).is_none() {
        return Err(ProgramError::Program(RogueTraderError::MathOverflow));
    }
    if ch.total_bets_settled == u64::MAX {
        return Err(ProgramError::Program(RogueTraderError::MathOverflow));
    }
    match settle_counterparties(bet, outcome, vaults) {
        Ok(()) => {},
        Err(e) => {
            return Err(ProgramError::Program(e));
        },
    }
    // Proposer
    let proposer_stake = bet.proposer_stake;
    let cp_pool = bet.counterparty_pool;
    let window_size = ch.odds_window_size;
    proposer.locked_sol = proposer.locked_sol.saturating_sub(proposer_stake);
    proposer.active_bet_count = proposer.active_bet_count.saturating_sub(1);
    if outcome == OUTCOME_PROPOSER_WON {
        match proposer.sol_balance.checked_add(cp_pool) {
            Some(b) => {
                proposer.sol_balance = b;
            },
            None => {
                return Err(ProgramError::Program(RogueTraderError::MathOverflow));
            },
        }
        proposer.bets_won = proposer.bets_won + 1;
        proposer.update_win_rate(true, window_size);
    } else if outcome == OUTCOME_PROPOSER_LOST {
        proposer.sol_balance = proposer.sol_balance.saturating_sub(proposer_stake);
        proposer.bets_lost = proposer.bets_lost + 1;
        proposer.update_win_rate(false, window_size);
    } else {
        proposer.bets_tied = proposer.bets_tied + 1;
    }
    // Bet and global stats
    bet.settled = true;
    bet.outcome = outcome;
    bet.exit_price = exit_price;
    bet.exit_conf = exit_conf;
    bet.settle_timestamp = now;
    ch.total_bets_settled = match ch.total_bets_settled.checked_add(1) {
        Some(t) => t,
        None => {
            return Err(ProgramError::Program(RogueTraderError::MathOverflow));
        },
    };
    Ok(
        BetSettled {
            bet_id: bet.bet_id,
            proposer_bot: proposer.bot_id,
            outcome,
            entry_price: bet.entry_price,
            exit_price,
            proposer_stake,
            counterparty_pool: cp_pool,
            tax_amount: 0,
            timestamp: now,
        },
    )
}

} // verus!
