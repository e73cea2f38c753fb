use anchor_lang::prelude::Pubkey as SolanaKey;
use roguetrader::clock::Clock;
use roguetrader::error::{ProgramError, RogueTraderError};
use roguetrader::instructions::accounts::{check_positions_present, check_vault_accounts, vault_address_matches};
use roguetrader::instructions::{close_bet, expire_stale_bet, propose_bet, settle_bet};
use roguetrader::pubkey::Pubkey;
use roguetrader::pyth::PRICE_UPDATE_V2_DISCRIMINATOR;
use roguetrader::state::agent_vault::AgentVault;
use roguetrader::state::bet::{
    Bet, Direction, OUTCOME_PENDING, OUTCOME_PROPOSER_LOST, OUTCOME_PROPOSER_WON, OUTCOME_TIE,
};
use roguetrader::state::clearing_house::ClearingHouseState;
use roguetrader::state::group_config::GroupConfig;

const PROGRAM: [u8; 32] = [42; 32];

fn key(b: u8) -> Pubkey {
    Pubkey::new_from_array([b; 32])
}

fn program_id() -> Pubkey {
    Pubkey::new_from_array(PROGRAM)
}

fn vault_key(bot_id: u8) -> Pubkey {
    let (pda, _) = SolanaKey::find_program_address(
        &[b"agent_vault", &[bot_id]],
        &SolanaKey::new_from_array(PROGRAM),
    );
    Pubkey::new_from_array(pda.to_bytes())
}

fn vault(bot_id: u8, sol_balance: u64) -> AgentVault {
    AgentVault {
        bot_id,
        group_id: 0,
        name: [0; 16],
        lp_mint: key(0),
        lp_authority: key(0),
        lp_mint_bump: 0,
        lp_authority_bump: 0,
        sol_balance,
        locked_sol: 0,
        total_lp_supply: 0,
        total_deposited: 0,
        total_withdrawn: 0,
        deposit_count: 0,
        withdrawal_count: 0,
        authorized_executor: key(0),
        bet_window: [0; 100],
        window_head: 0,
        window_count: 0,
        wins_in_window: 0,
        bets_proposed: 0,
        bets_won: 0,
        bets_lost: 0,
        bets_tied: 0,
        active_bet_count: 0,
        bump: 0,
        counterparty_locked_sol: 0,
        _reserved: [0; 56],
    }
}

fn house() -> ClearingHouseState {
    ClearingHouseState {
        authority: key(1),
        settler: key(2),
        deposit_fee_bps: 100,
        withdrawal_fee_bps: 100,
        referral_bps: 20,
        tier2_referral_bps: 10,
        bonus_bps: 10,
        nft_reward_bps: 10,
        platform_fee_bps: 30,
        platform_wallet: key(3),
        bonus_wallet: key(4),
        nft_rewarder: key(5),
        paused: false,
        next_bet_id: 7,
        total_bets_proposed: 0,
        total_bets_settled: 0,
        total_volume: 0,
        total_deposit_fees: 0,
        total_withdrawal_fees: 0,
        total_referral_paid: 0,
        total_nft_rewards_paid: 0,
        total_platform_fees_paid: 0,
        total_bonus_paid: 0,
        vault: key(6),
        vault_bump: 0,
        vault_lookup_table: key(0),
        bump: 0,
        min_odds_bps: 0,
        max_odds_bps: 0,
        odds_window_size: 0,
        invert_odds: false,
        spread_to_lp_bps: 20,
        max_cp_exposure_bps: 0,
        stale_bet_buffer_secs: 0,
        deposits_paused: false,
        withdrawals_paused: false,
        betting_paused: false,
        pending_authority: key(0),
        _reserved: [0; 74],
    }
}

fn group() -> GroupConfig {
    let mut feeds = [key(0); 20];
    feeds[0] = key(5);
    GroupConfig { group_id: 0, name: [0; 32], pyth_feeds: feeds, feed_count: 1, bump: 0, _reserved: [0; 32] }
}

fn clock(now: i64) -> Clock {
    Clock { slot: 1, epoch_start_timestamp: 0, epoch: 0, leader_schedule_epoch: 0, unix_timestamp: now }
}

fn price_account(feed: u8, price: i64, conf: u64, expo: i32, publish_time: i64) -> Vec<u8> {
    let mut d = Vec::new();
    d.extend_from_slice(&PRICE_UPDATE_V2_DISCRIMINATOR);
    d.extend_from_slice(&[9u8; 32]);
    d.push(1);
    d.extend_from_slice(&[feed; 32]);
    d.extend_from_slice(&price.to_le_bytes());
    d.extend_from_slice(&conf.to_le_bytes());
    d.extend_from_slice(&expo.to_le_bytes());
    d.extend_from_slice(&publish_time.to_le_bytes());
    d.extend_from_slice(&publish_time.to_le_bytes());
    d.extend_from_slice(&price.to_le_bytes());
    d.extend_from_slice(&conf.to_le_bytes());
    d.extend_from_slice(&1u64.to_le_bytes());
    d
}

/// Counterparties: bots 1..=29 with 1,000,000 lamports each.
fn counterparties() -> (Vec<AgentVault>, Vec<Pubkey>) {
    let vaults: Vec<AgentVault> = (1..=29).map(|b| vault(b, 1_000_000)).collect();
    let keys: Vec<Pubkey> = (1..=29).map(vault_key).collect();
    (vaults, keys)
}

struct Opened {
    ch: ClearingHouseState,
    proposer: AgentVault,
    bet: Bet,
    vaults: Vec<AgentVault>,
    keys: Vec<Pubkey>,
}

/// Bot 0 proposes a long bet of 5% of 10,000,000 lamports for 60 seconds at 1,000.
fn open_bet() -> Opened {
    let mut ch = house();
    let mut proposer = vault(0, 10_000_000);
    let (mut vaults, keys) = counterparties();
    let data = price_account(5, 1_000_000, 100, -2, 1_000);
    let (bet, _) = propose_bet::handler(
        &mut ch, &mut proposer, &group(), &key(2), &key(50), &data, &clock(1_000), 0, 500, 60, 3,
        &mut vaults, &keys, &program_id(),
    )
    .unwrap();
    Opened { ch, proposer, bet, vaults, keys }
}

#[test]
fn vault_addresses_are_derived() {
    assert!(vault_address_matches(&vault_key(4), 4, &program_id()));
    assert!(!vault_address_matches(&vault_key(4), 5, &program_id()));
    assert!(!vault_address_matches(&program_id(), 4, &program_id()));
}

#[test]
fn vault_account_checks() {
    let (vaults, keys) = counterparties();
    assert_eq!(check_vault_accounts(&vaults, &keys, &program_id()), Ok(()));
    let mut dup = vaults.clone();
    let mut dup_keys = keys.clone();
    dup.push(vault(3, 1));
    dup_keys.push(vault_key(3));
    assert_eq!(check_vault_accounts(&dup, &dup_keys, &program_id()), Err(RogueTraderError::DuplicateCounterparty));
    let mut wrong = keys.clone();
    wrong[2] = key(9);
    assert_eq!(check_vault_accounts(&vaults, &wrong, &program_id()), Err(RogueTraderError::InvalidCounterpartyVault));
}

#[test]
fn proposal_locks_pro_rata_stakes() {
    let o = open_bet();
    let (bet, ch, proposer) = (o.bet, o.ch, o.proposer);
    assert_eq!(bet.bet_id, 7);
    assert_eq!(bet.proposer_bot, 0);
    assert_eq!(bet.pyth_feed, key(50));
    assert_eq!(bet.direction, Direction::Long);
    assert_eq!(bet.proposer_stake, 500_000);
    // Each of the 29 bots holds 1/29 of the free capital: 500,000 / 29, rounded down.
    assert_eq!(bet.cp_count, 29);
    for (i, cp) in bet.counterparties.iter().enumerate() {
        assert_eq!(cp.bot_id as usize, i + 1);
        assert_eq!(cp.stake, 17_241);
    }
    assert_eq!(bet.counterparty_pool, 29 * 17_241);
    assert_eq!(bet.win_rate_bps_at_open, 5_000);
    assert_eq!(bet.entry_price, 1_000_000);
    assert_eq!(bet.entry_conf, 100);
    assert_eq!(bet.entry_expo, -2);
    assert_eq!(bet.entry_timestamp, 1_000);
    assert_eq!(bet.expiry_timestamp, 1_060);
    assert!(!bet.settled);
    assert_eq!(bet.outcome, OUTCOME_PENDING);
    assert_eq!(bet.bump, 3);
    assert_eq!(proposer.locked_sol, 500_000);
    assert_eq!(proposer.active_bet_count, 1);
    assert_eq!(proposer.bets_proposed, 1);
    for v in &o.vaults {
        assert_eq!(v.locked_sol, 17_241);
        assert_eq!(v.counterparty_locked_sol, 17_241);
        assert_eq!(v.sol_balance, 1_000_000);
    }
    assert_eq!(ch.next_bet_id, 8);
    assert_eq!(ch.total_bets_proposed, 1);
    assert_eq!(ch.total_volume, 500_000 + 29 * 17_241);
    assert_eq!(check_positions_present(&bet, &o.vaults), Ok(()));
}

#[test]
fn exposure_cap_shrinks_pool_and_stake() {
    let mut ch = house();
    // Each counterparty risks at most 1% of its free capital: 10,000 each.
    ch.max_cp_exposure_bps = 100;
    let mut proposer = vault(0, 10_000_000);
    let (mut vaults, keys) = counterparties();
    let data = price_account(5, 1_000_000, 100, -2, 1_000);
    let (bet, _) = propose_bet::handler(
        &mut ch, &mut proposer, &group(), &key(2), &key(50), &data, &clock(1_000), 1, 500, 60, 3,
        &mut vaults, &keys, &program_id(),
    )
    .unwrap();
    assert_eq!(bet.direction, Direction::Short);
    assert_eq!(bet.counterparty_pool, 290_000);
    // Stake shrunk to pool × p / q at even odds.
    assert_eq!(bet.proposer_stake, 290_000);
    assert!(vaults.iter().all(|v| v.locked_sol == 10_000));
    assert_eq!(proposer.locked_sol, 290_000);
}

fn propose_err(
    ch: &ClearingHouseState,
    group: &GroupConfig,
    data: &[u8],
    direction: u8,
    stake_bps: u64,
    duration: i64,
    vaults: &Vec<AgentVault>,
    keys: &Vec<Pubkey>,
) -> ProgramError {
    let mut ch = *ch;
    let mut proposer = vault(0, 10_000_000);
    let mut vaults = vaults.clone();
    propose_bet::handler(
        &mut ch, &mut proposer, group, &key(2), &key(50), data, &clock(1_000), direction, stake_bps,
        duration, 3, &mut vaults, keys, &program_id(),
    )
    .unwrap_err()
}

fn prog(e: RogueTraderError) -> ProgramError {
    ProgramError::Program(e)
}

#[test]
fn proposal_rejections() {
    let ch = house();
    let g = group();
    let d = price_account(5, 1_000_000, 100, -2, 1_000);
    let (vs, ks) = counterparties();
    assert_eq!(propose_err(&ch, &g, &d, 2, 500, 60, &vs, &ks), prog(RogueTraderError::InvalidDirection));
    assert_eq!(propose_err(&ch, &g, &d, 0, 500, 29, &vs, &ks), prog(RogueTraderError::InvalidDuration));
    assert_eq!(propose_err(&ch, &g, &d, 0, 500, 86_401, &vs, &ks), prog(RogueTraderError::InvalidDuration));
    assert_eq!(propose_err(&ch, &g, &d, 0, 1, 60, &vs, &ks), prog(RogueTraderError::StakeBelowMinimum));
    let mut paused = house();
    paused.betting_paused = true;
    assert_eq!(propose_err(&paused, &g, &d, 0, 500, 60, &vs, &ks), prog(RogueTraderError::Paused));
    let other_feed = price_account(6, 1_000_000, 100, -2, 1_000);
    assert_eq!(propose_err(&ch, &g, &other_feed, 0, 500, 60, &vs, &ks), prog(RogueTraderError::PythFeedNotInGroup));
    let stale = price_account(5, 1_000_000, 100, -2, 900);
    assert_eq!(propose_err(&ch, &g, &stale, 0, 500, 60, &vs, &ks), prog(RogueTraderError::PythPriceTooStale));
    let mut bad = d.clone();
    bad[3] ^= 0xff;
    assert_eq!(propose_err(&ch, &g, &bad, 0, 500, 60, &vs, &ks), ProgramError::InvalidAccountData);
    let short: Vec<AgentVault> = vs[..28].to_vec();
    let short_keys: Vec<Pubkey> = ks[..28].to_vec();
    assert_eq!(
        propose_err(&ch, &g, &d, 0, 500, 60, &short, &short_keys),
        prog(RogueTraderError::CounterpartyCountMismatch)
    );
    let mut with_self = vs.clone();
    let mut with_self_keys = ks.clone();
    with_self[5] = vault(0, 1_000_000);
    with_self_keys[5] = vault_key(0);
    assert_eq!(
        propose_err(&ch, &g, &d, 0, 500, 60, &with_self, &with_self_keys),
        prog(RogueTraderError::SelfCounterparty)
    );
    let mut dup = vs.clone();
    let mut dup_keys = ks.clone();
    dup[5] = vault(1, 1_000_000);
    dup_keys[5] = vault_key(1);
    assert_eq!(propose_err(&ch, &g, &d, 0, 500, 60, &dup, &dup_keys), prog(RogueTraderError::DuplicateCounterparty));
    let mut wrong_keys = ks.clone();
    wrong_keys[0] = key(8);
    assert_eq!(
        propose_err(&ch, &g, &d, 0, 500, 60, &vs, &wrong_keys),
        prog(RogueTraderError::InvalidCounterpartyVault)
    );
    let poor: Vec<AgentVault> = (1..=29).map(|b| vault(b, 1_000)).collect();
    assert_eq!(
        propose_err(&ch, &g, &d, 0, 500, 60, &poor, &ks),
        prog(RogueTraderError::InsufficientCounterpartyLiquidity)
    );
}

#[test]
fn second_open_bet_is_refused() {
    let mut o = open_bet();
    let d = price_account(5, 1_000_000, 100, -2, 1_000);
    let r = propose_bet::handler(
        &mut o.ch, &mut o.proposer, &group(), &key(2), &key(50), &d, &clock(1_000), 0, 500, 60, 3,
        &mut o.vaults, &o.keys, &program_id(),
    );
    assert_eq!(r.unwrap_err(), prog(RogueTraderError::MaxActiveBetsReached));
}

fn settle(o: &mut Opened, exit_price: i64, now: i64) -> Result<roguetrader::events::BetSettled, ProgramError> {
    let d = price_account(5, exit_price, 100, -2, now - 5);
    settle_bet::handler(
        &mut o.ch, &mut o.proposer, &mut o.bet, &key(2), &key(50), &d, &clock(now), &mut o.vaults, &o.keys,
        &program_id(),
    )
}

#[test]
fn proposer_win_takes_the_pool() {
    let mut o = open_bet();
    let ev = settle(&mut o, 1_100_000, 1_060).unwrap();
    assert_eq!(ev.outcome, OUTCOME_PROPOSER_WON);
    assert_eq!(ev.exit_price, 1_100_000);
    assert_eq!(ev.tax_amount, 0);
    assert!(o.bet.settled);
    assert_eq!(o.bet.outcome, OUTCOME_PROPOSER_WON);
    assert_eq!(o.bet.settle_timestamp, 1_060);
    assert_eq!(o.proposer.sol_balance, 10_000_000 + 29 * 17_241);
    assert_eq!(o.proposer.locked_sol, 0);
    assert_eq!(o.proposer.active_bet_count, 0);
    assert_eq!(o.proposer.bets_won, 1);
    assert_eq!((o.proposer.window_count, o.proposer.wins_in_window), (1, 1));
    for v in &o.vaults {
        assert_eq!(v.sol_balance, 1_000_000 - 17_241);
        assert_eq!(v.locked_sol, 0);
        assert_eq!(v.counterparty_locked_sol, 0);
    }
    assert_eq!(o.ch.total_bets_settled, 1);
    // The SOL that moved is conserved.
    let total: u64 = o.proposer.sol_balance + o.vaults.iter().map(|v| v.sol_balance).sum::<u64>();
    assert_eq!(total, 10_000_000 + 29 * 1_000_000);
}

#[test]
fn proposer_loss_pays_counterparties_pro_rata() {
    let mut o = open_bet();
    let ev = settle(&mut o, 900_000, 1_100).unwrap();
    assert_eq!(ev.outcome, OUTCOME_PROPOSER_LOST);
    assert_eq!(o.proposer.sol_balance, 9_500_000);
    assert_eq!(o.proposer.bets_lost, 1);
    assert_eq!((o.proposer.window_count, o.proposer.wins_in_window), (1, 0));
    // 17,241 × 500,000 / 499,989, rounded down.
    for v in &o.vaults {
        assert_eq!(v.sol_balance, 1_000_000 + 17_241);
        assert_eq!(v.locked_sol, 0);
    }
    let total: u64 = o.proposer.sol_balance + o.vaults.iter().map(|v| v.sol_balance).sum::<u64>();
    assert!(total <= 10_000_000 + 29 * 1_000_000);
}

#[test]
fn tie_releases_everything() {
    let mut o = open_bet();
    let ev = settle(&mut o, 1_000_000, 1_070).unwrap();
    assert_eq!(ev.outcome, OUTCOME_TIE);
    assert_eq!(o.proposer.sol_balance, 10_000_000);
    assert_eq!(o.proposer.locked_sol, 0);
    assert_eq!(o.proposer.bets_tied, 1);
    assert_eq!(o.proposer.window_count, 0);
    for v in &o.vaults {
        assert_eq!(*v, vault(v.bot_id, 1_000_000));
    }
}

#[test]
fn settlement_rejections() {
    let mut o = open_bet();
    assert_eq!(settle(&mut o, 1_100_000, 1_059).unwrap_err(), prog(RogueTraderError::BetNotExpired));
    assert_eq!(settle(&mut o, 1_100_000, 1_181).unwrap_err(), prog(RogueTraderError::SettlementWindowExpired));
    let d = price_account(5, 1_100_000, 100, -3, 1_060);
    let r = settle_bet::handler(
        &mut o.ch, &mut o.proposer, &mut o.bet, &key(2), &key(50), &d, &clock(1_061), &mut o.vaults, &o.keys,
        &program_id(),
    );
    assert_eq!(r.unwrap_err(), prog(RogueTraderError::ExponentChanged));
    let d = price_account(5, 1_100_000, 100, -2, 1_060);
    let r = settle_bet::handler(
        &mut o.ch, &mut o.proposer, &mut o.bet, &key(9), &key(50), &d, &clock(1_061), &mut o.vaults, &o.keys,
        &program_id(),
    );
    assert_eq!(r.unwrap_err(), prog(RogueTraderError::UnauthorizedSettler));
    let r = settle_bet::handler(
        &mut o.ch, &mut o.proposer, &mut o.bet, &key(2), &key(51), &d, &clock(1_061), &mut o.vaults, &o.keys,
        &program_id(),
    );
    assert_eq!(r.unwrap_err(), prog(RogueTraderError::FeedMismatch));
    let mut missing = o.vaults.clone();
    let mut missing_keys = o.keys.clone();
    missing.pop();
    missing_keys.pop();
    let r = settle_bet::handler(
        &mut o.ch, &mut o.proposer, &mut o.bet, &key(2), &key(50), &d, &clock(1_061), &mut missing,
        &missing_keys, &program_id(),
    );
    assert_eq!(r.unwrap_err(), prog(RogueTraderError::MissingCounterparty));
    settle(&mut o, 1_100_000, 1_061).unwrap();
    assert_eq!(settle(&mut o, 1_100_000, 1_062).unwrap_err(), prog(RogueTraderError::BetAlreadySettled));
}

#[test]
fn stale_bet_expiry_unlocks_all() {
    let mut o = open_bet();
    let r = expire_stale_bet::handler(
        &o.ch, &mut o.proposer, &o.bet, &key(1), &clock(1_180), &mut o.vaults, &o.keys, &program_id(),
    );
    assert_eq!(r.unwrap().locked_sol_returned, 500_000 + 29 * 17_241);
    assert_eq!(o.proposer.locked_sol, 0);
    assert_eq!(o.proposer.active_bet_count, 0);
    assert_eq!(o.proposer.sol_balance, 10_000_000);
    for v in &o.vaults {
        assert_eq!(*v, vault(v.bot_id, 1_000_000));
    }
}

#[test]
fn stale_bet_expiry_rejections() {
    let mut o = open_bet();
    let r = expire_stale_bet::handler(
        &o.ch, &mut o.proposer, &o.bet, &key(1), &clock(1_179), &mut o.vaults, &o.keys, &program_id(),
    );
    assert_eq!(r.unwrap_err(), RogueTraderError::StaleBetBufferNotElapsed);
    let r = expire_stale_bet::handler(
        &o.ch, &mut o.proposer, &o.bet, &key(9), &clock(1_180), &mut o.vaults, &o.keys, &program_id(),
    );
    assert_eq!(r.unwrap_err(), RogueTraderError::UnauthorizedSettler);
    let mut other = vault(3, 1);
    let r = expire_stale_bet::handler(
        &o.ch, &mut other, &o.bet, &key(1), &clock(1_180), &mut o.vaults, &o.keys, &program_id(),
    );
    assert_eq!(r.unwrap_err(), RogueTraderError::VaultBetMismatch);
}

#[test]
fn closing_needs_a_settled_bet_and_a_role() {
    let mut o = open_bet();
    assert_eq!(close_bet::handler(&o.ch, &o.bet, &key(1), 5).unwrap_err(), RogueTraderError::BetNotSettled);
    settle(&mut o, 1_100_000, 1_061).unwrap();
    let closed = close_bet::handler(&o.ch, &o.bet, &key(2), 5).unwrap();
    assert_eq!(closed.bet_id, 7);
    assert_eq!(closed.rent_returned_to, key(2));
    assert_eq!(close_bet::handler(&o.ch, &o.bet, &key(9), 5).unwrap_err(), RogueTraderError::Unauthorized);
}

#[test]
fn counterparty_stake_lookup() {
    let o = open_bet();
    assert_eq!(o.bet.counterparty_stake(4), 17_241);
    assert_eq!(o.bet.counterparty_stake(0), 0);
    assert_eq!(o.bet.counterparty_stake(30), 0);
}
