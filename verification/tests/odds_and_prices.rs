use roguetrader::clock::{saturating_sub_i64, Clock};
use roguetrader::error::{ProgramError, RogueTraderError};
use roguetrader::instructions::price::checked_price;
use roguetrader::pubkey::Pubkey;
use roguetrader::pyth::{PriceUpdateV2, VerificationLevel, PRICE_UPDATE_V2_DISCRIMINATOR};
use roguetrader::state::agent_vault::AgentVault;
use roguetrader::state::bet::{
    bet_outcome, Direction, OUTCOME_PROPOSER_LOST, OUTCOME_PROPOSER_WON, OUTCOME_TIE,
};
use roguetrader::state::group_config::GroupConfig;

fn key(b: u8) -> Pubkey {
    Pubkey::new_from_array([b; 32])
}

fn vault(sol_balance: u64, locked_sol: u64) -> AgentVault {
    AgentVault {
        bot_id: 1,
        group_id: 0,
        name: [0; 16],
        lp_mint: key(0),
        lp_authority: key(0),
        lp_mint_bump: 0,
        lp_authority_bump: 0,
        sol_balance,
        locked_sol,
        total_lp_supply: 0,
        total_deposited: 0,
        total_withdrawn: 0,
        deposit_count: 0,
        withdrawal_count: 0,
        authorized_executor: key(0),
        bet_window: [0; 100],
        window_head: 0,
        window_count: 0,
        wins_in_window: 0,
        bets_proposed: 0,
        bets_won: 0,
        bets_lost: 0,
        bets_tied: 0,
        active_bet_count: 0,
        bump: 0,
        counterparty_locked_sol: 0,
        _reserved: [0; 56],
    }
}

fn clock(now: i64) -> Clock {
    Clock { slot: 7, epoch_start_timestamp: 0, epoch: 0, leader_schedule_epoch: 0, unix_timestamp: now }
}

/// Account bytes of a price update with full verification.
fn price_account(feed: u8, price: i64, conf: u64, expo: i32, publish_time: i64) -> Vec<u8> {
    let mut d = Vec::new();
    d.extend_from_slice(&PRICE_UPDATE_V2_DISCRIMINATOR);
    d.extend_from_slice(&[9u8; 32]);
    d.push(1);
    d.extend_from_slice(&[feed; 32]);
    d.extend_from_slice(&price.to_le_bytes());
    d.extend_from_slice(&conf.to_le_bytes());
    d.extend_from_slice(&expo.to_le_bytes());
    d.extend_from_slice(&publish_time.to_le_bytes());
    d.extend_from_slice(&(publish_time - 1).to_le_bytes());
    d.extend_from_slice(&(price - 5).to_le_bytes());
    d.extend_from_slice(&(conf + 1).to_le_bytes());
    d.extend_from_slice(&77u64.to_le_bytes());
    d
}

#[test]
fn free_capital_excludes_locked() {
    assert_eq!(vault(1_000, 300).free_capital(), 700);
    assert_eq!(vault(1_000, 3_000).free_capital(), 0);
    assert_eq!(vault(1_000, 300).effective_balance(), 700);
}

#[test]
fn odds_start_even() {
    // No history: 50%, inside the default clamp of 45%..55%.
    assert_eq!(vault(0, 0).compute_odds(0, 0, 0, false), (5_000, 5_000));
}

#[test]
fn odds_clamped_to_bounds() {
    let mut v = vault(0, 0);
    for _ in 0..10 {
        v.update_win_rate(true, 10);
    }
    assert_eq!(v.wins_in_window, 10);
    assert_eq!(v.window_count, 10);
    // 100% win rate, clamped to the default ceiling of 55%.
    assert_eq!(v.compute_odds(0, 0, 10, false), (5_500, 4_500));
    // Inverted: 0%, lifted to the floor.
    assert_eq!(v.compute_odds(0, 0, 10, true), (4_500, 5_500));
    // Configured bounds.
    assert_eq!(v.compute_odds(3_000, 9_000, 10, false), (9_000, 1_000));
    assert_eq!(v.compute_odds(3_000, 9_000, 10, true), (3_000, 7_000));
}

#[test]
fn odds_follow_win_rate_inside_bounds() {
    let mut v = vault(0, 0);
    v.update_win_rate(true, 10);
    v.update_win_rate(true, 10);
    v.update_win_rate(false, 10);
    v.update_win_rate(true, 10);
    // 3 wins of 4: 75%.
    assert_eq!(v.compute_odds(1_000, 9_000, 10, false), (7_500, 2_500));
    assert_eq!(v.compute_odds(1_000, 9_000, 10, true), (2_500, 7_500));
}

#[test]
fn win_window_rolls_over() {
    let mut v = vault(0, 0);
    for _ in 0..3 {
        v.update_win_rate(true, 3);
    }
    assert_eq!((v.window_count, v.wins_in_window, v.window_head), (3, 3, 0));
    v.update_win_rate(false, 3);
    // The oldest win is replaced by a loss.
    assert_eq!((v.window_count, v.wins_in_window, v.window_head), (3, 2, 1));
    assert_eq!(v.bet_window[0], 0);
    assert_eq!(v.bet_window[1], 1);
}

#[test]
fn stake_from_kelly_input() {
    let v = vault(1_000_000, 0);
    // 3% of the free capital; pool = stake × q / p at even odds.
    assert_eq!(v.apply_odds_to_stake(300, 0, 0, 0, false), (30_000, 30_000));
    // Kelly input capped at 5%.
    assert_eq!(v.apply_odds_to_stake(2_000, 0, 0, 0, false), (50_000, 50_000));
}

#[test]
fn stake_with_skewed_odds() {
    let mut v = vault(1_000_000, 0);
    for _ in 0..10 {
        v.update_win_rate(true, 10);
    }
    // p = 55%: pool = 50,000 × 4,500 / 5,500.
    assert_eq!(v.apply_odds_to_stake(500, 0, 0, 10, false), (50_000, 40_909));
}

#[test]
fn outcomes_by_direction() {
    assert_eq!(bet_outcome(Direction::Long, 100, 101), OUTCOME_PROPOSER_WON);
    assert_eq!(bet_outcome(Direction::Long, 100, 99), OUTCOME_PROPOSER_LOST);
    assert_eq!(bet_outcome(Direction::Short, 100, 99), OUTCOME_PROPOSER_WON);
    assert_eq!(bet_outcome(Direction::Short, 100, 101), OUTCOME_PROPOSER_LOST);
    assert_eq!(bet_outcome(Direction::Long, 100, 100), OUTCOME_TIE);
    assert_eq!(bet_outcome(Direction::Short, 100, 100), OUTCOME_TIE);
}

#[test]
fn saturating_time_difference() {
    assert_eq!(saturating_sub_i64(10, 3), 7);
    assert_eq!(saturating_sub_i64(i64::MIN, 1), i64::MIN);
    assert_eq!(saturating_sub_i64(i64::MAX, -1), i64::MAX);
}

#[test]
fn group_feed_lookup() {
    let mut feeds = [key(0); 20];
    feeds[0] = key(11);
    feeds[1] = key(12);
    feeds[2] = key(13);
    let g = GroupConfig { group_id: 1, name: [0; 32], pyth_feeds: feeds, feed_count: 2, bump: 0, _reserved: [0; 32] };
    assert!(g.has_feed_id(&[11; 32]));
    assert!(g.has_feed_id(&[12; 32]));
    // Stored, but beyond the feed count.
    assert!(!g.has_feed_id(&[13; 32]));
}

#[test]
fn decode_full_verification() {
    let d = price_account(5, 6_000_000, 1_000, -8, 1_700_000_000);
    let u = PriceUpdateV2::try_deserialize(&d).unwrap();
    assert_eq!(u.write_authority, key(9));
    assert_eq!(u.verification_level, VerificationLevel::Full);
    assert_eq!(u.price_message.feed_id, [5; 32]);
    assert_eq!(u.price_message.price, 6_000_000);
    assert_eq!(u.price_message.conf, 1_000);
    assert_eq!(u.price_message.exponent, -8);
    assert_eq!(u.price_message.publish_time, 1_700_000_000);
    assert_eq!(u.price_message.prev_publish_time, 1_699_999_999);
    assert_eq!(u.price_message.ema_price, 5_999_995);
    assert_eq!(u.price_message.ema_conf, 1_001);
    assert_eq!(u.posted_slot, 77);
}

#[test]
fn decode_partial_verification() {
    let full = price_account(5, 42, 1, -2, 100);
    let mut d = full[..40].to_vec();
    d.push(0);
    d.push(3);
    d.extend_from_slice(&full[41..]);
    let u = PriceUpdateV2::try_deserialize(&d).unwrap();
    assert_eq!(u.verification_level, VerificationLevel::Partial { num_signatures: 3 });
    assert_eq!(u.price_message.price, 42);
    assert_eq!(u.posted_slot, 77);
}

#[test]
fn decode_rejects_wrong_discriminator() {
    let mut d = price_account(5, 42, 1, -2, 100);
    d[0] ^= 1;
    assert_eq!(PriceUpdateV2::try_deserialize(&d), Err(ProgramError::InvalidAccountData));
    assert_eq!(PriceUpdateV2::try_deserialize(&[1, 2, 3]), Err(ProgramError::InvalidAccountData));
}

#[test]
fn price_age_checks() {
    let u = PriceUpdateV2::try_deserialize(&price_account(5, 42, 1, -2, 1_000)).unwrap();
    assert!(u.get_price_no_older_than(&clock(1_060), 60).is_ok());
    assert_eq!(u.get_price_no_older_than(&clock(1_061), 60), Err(RogueTraderError::PythPriceTooStale));
    // Published in the future.
    assert_eq!(u.get_price_no_older_than(&clock(999), 60), Err(RogueTraderError::PythPriceTooStale));
}

#[test]
fn checked_price_rules() {
    let ok = PriceUpdateV2::try_deserialize(&price_account(5, 1_000_000, 20_000, -2, 1_000)).unwrap();
    assert_eq!(checked_price(&ok, &clock(1_010)).unwrap().price, 1_000_000);
    // Confidence 2.01% of the price: too wide.
    let wide = PriceUpdateV2::try_deserialize(&price_account(5, 1_000_000, 20_100, -2, 1_000)).unwrap();
    assert_eq!(checked_price(&wide, &clock(1_010)), Err(RogueTraderError::PythConfidenceTooWide));
    let zero = PriceUpdateV2::try_deserialize(&price_account(5, 0, 1, -2, 1_000)).unwrap();
    assert_eq!(checked_price(&zero, &clock(1_010)), Err(RogueTraderError::InvalidPrice));
    assert_eq!(checked_price(&ok, &clock(2_000)), Err(RogueTraderError::PythPriceTooStale));
}

#[test]
fn shrinking_the_window_keeps_the_latest_outcomes() {
    // A full window of 20 whose next slot is 15: the latest 10 outcomes are
    // in slots 5..14, all losses; the wins in slots 0..4 are older.
    let mut v = vault(0, 0);
    v.window_count = 20;
    v.window_head = 15;
    for i in 0..5 {
        v.bet_window[i] = 1;
    }
    v.wins_in_window = 5;
    v.update_win_rate(false, 10);
    assert_eq!(v.window_count, 10);
    assert_eq!(v.wins_in_window, 0);
    assert!(v.bet_window.iter().all(|&x| x == 0));
    assert_eq!(v.window_head, 1);

    // The same window with wins in slots 10..14 keeps them.
    let mut w = vault(0, 0);
    w.window_count = 20;
    w.window_head = 15;
    for i in 10..15 {
        w.bet_window[i] = 1;
    }
    w.wins_in_window = 5;
    w.update_win_rate(true, 10);
    assert_eq!(w.window_count, 10);
    assert_eq!(w.wins_in_window, 6);
    let counted = w.bet_window[..10].iter().filter(|&&x| x == 1).count();
    assert_eq!(counted, 6);
    assert!(w.bet_window[10..].iter().all(|&x| x == 0));
}

#[test]
fn decode_rejects_truncated_update() {
    let full = price_account(5, 42, 1, -2, 100);
    // The discriminator alone, and a whole update less its last byte.
    assert_eq!(PriceUpdateV2::try_deserialize(&full[..8]), Err(ProgramError::InvalidAccountData));
    assert_eq!(PriceUpdateV2::try_deserialize(&full[..132]), Err(ProgramError::InvalidAccountData));
    assert!(PriceUpdateV2::try_deserialize(&full[..133]).is_ok());
    // Partial verification needs one byte more.
    let mut d = full[..40].to_vec();
    d.push(0);
    d.push(3);
    d.extend_from_slice(&full[41..132]);
    assert_eq!(d.len(), 133);
    assert_eq!(PriceUpdateV2::try_deserialize(&d), Err(ProgramError::InvalidAccountData));
}

#[test]
fn decode_reads_back_encoded_update_with_tail() {
    let mut d = Vec::new();
    d.extend_from_slice(&PRICE_UPDATE_V2_DISCRIMINATOR);
    d.extend_from_slice(&[4u8; 32]);
    d.push(0);
    d.push(13);
    d.extend_from_slice(&[6u8; 32]);
    d.extend_from_slice(&(-123_456i64).to_le_bytes());
    d.extend_from_slice(&u64::MAX.to_le_bytes());
    d.extend_from_slice(&i32::MIN.to_le_bytes());
    d.extend_from_slice(&(-1i64).to_le_bytes());
    d.extend_from_slice(&i64::MAX.to_le_bytes());
    d.extend_from_slice(&i64::MIN.to_le_bytes());
    d.extend_from_slice(&7u64.to_le_bytes());
    d.extend_from_slice(&9_999u64.to_le_bytes());
    d.extend_from_slice(&[0xAB; 5]);
    let u = PriceUpdateV2::try_deserialize(&d).unwrap();
    assert_eq!(u.write_authority, key(4));
    assert_eq!(u.verification_level, VerificationLevel::Partial { num_signatures: 13 });
    assert_eq!(u.price_message.feed_id, [6; 32]);
    assert_eq!(u.price_message.price, -123_456);
    assert_eq!(u.price_message.conf, u64::MAX);
    assert_eq!(u.price_message.exponent, i32::MIN);
    assert_eq!(u.price_message.publish_time, -1);
    assert_eq!(u.price_message.prev_publish_time, i64::MAX);
    assert_eq!(u.price_message.ema_price, i64::MIN);
    assert_eq!(u.price_message.ema_conf, 7);
    assert_eq!(u.posted_slot, 9_999);
}

#[test]
fn win_counter_counts_last_outcomes() {
    // Rolling window on concrete values: after W W L W L L W under a window
    // of 3, the counter holds the wins among the last three (L L W).
    let mut v = vault(0, 0);
    for &o in &[true, true, false, true, false, false, true] {
        assert!(v.win_record_fits(o, 3));
        v.update_win_rate(o, 3);
    }
    assert_eq!((v.window_count, v.wins_in_window), (3, 1));
}

#[test]
fn shrinking_window_trims_stale_outcomes() {
    let mut v = vault(0, 0);
    // W W W L L under a window of 10, then a window of 2.
    for &o in &[true, true, true, false, false] {
        v.update_win_rate(o, 10);
    }
    assert_eq!((v.window_count, v.wins_in_window, v.window_head), (5, 3, 5));
    v.update_win_rate(true, 2);
    // Kept L (the last before), then the new W: two outcomes, one win.
    assert_eq!((v.window_count, v.wins_in_window), (2, 1));
    assert_eq!(&v.bet_window[..3], &[1, 0, 0]);
}

#[test]
fn win_record_fits_refuses_head_past_buffer() {
    let mut v = vault(0, 0);
    assert!(v.win_record_fits(true, 10));
    v.window_head = 150;
    v.window_count = 0;
    assert!(!v.win_record_fits(true, 200));
    // A trimmed window is rebuilt in range first.
    v.window_count = 120;
    assert!(v.win_record_fits(true, 50));
}
