use roguetrader::error::RogueTraderError;
use roguetrader::instructions::initialize::FeeConfig;
use roguetrader::instructions::update_config::{ConfigChange, ConfigUpdate};
use roguetrader::instructions::{
    admin_reset_vault, admin_set_referrer, create_agent_vault, create_group_config, fund_vault,
    initialize, pause, set_referrer, transfer_authority, update_config, update_group_feeds,
};
use roguetrader::pubkey::Pubkey;
use roguetrader::state::agent_vault::AgentVault;
use roguetrader::state::clearing_house::ClearingHouseState;
use roguetrader::state::player_state::PlayerState;
use roguetrader::state::referral_state::ReferralState;

fn key(b: u8) -> Pubkey {
    Pubkey::new_from_array([b; 32])
}

fn fees() -> FeeConfig {
    FeeConfig {
        deposit_fee_bps: 100,
        withdrawal_fee_bps: 100,
        referral_bps: 20,
        tier2_referral_bps: 10,
        bonus_bps: 10,
        nft_reward_bps: 10,
        platform_fee_bps: 30,
        spread_to_lp_bps: 20,
    }
}

fn init(f: &FeeConfig) -> Result<ClearingHouseState, RogueTraderError> {
    initialize::handler(f, &key(1), &key(2), &key(3), &key(4), &key(5), &key(6), 7, 8, 100).map(|r| r.0)
}

fn house() -> ClearingHouseState {
    init(&fees()).unwrap()
}

fn no_update() -> ConfigUpdate {
    ConfigUpdate {
        deposit_fee_bps: None,
        withdrawal_fee_bps: None,
        referral_bps: None,
        tier2_referral_bps: None,
        bonus_bps: None,
        nft_reward_bps: None,
        platform_fee_bps: None,
        platform_wallet: None,
        bonus_wallet: None,
        nft_rewarder: None,
        settler: None,
        vault_lookup_table: None,
        min_odds_bps: None,
        max_odds_bps: None,
        odds_window_size: None,
        invert_odds: None,
        spread_to_lp_bps: None,
        max_cp_exposure_bps: None,
        stale_bet_buffer_secs: None,
    }
}

fn empty_player() -> PlayerState {
    PlayerState {
        wallet: key(0),
        referrer: key(0),
        tier2_referrer: key(0),
        total_deposited: 0,
        total_withdrawn: 0,
        deposit_count: 0,
        withdrawal_count: 0,
        bump: 0,
        _reserved: [0; 64],
    }
}

fn empty_referral() -> ReferralState {
    ReferralState { referrer: key(0), total_earnings: 0, referral_count: 0, bump: 0, _reserved: [0; 64] }
}

fn new_vault(bot_id: u8) -> AgentVault {
    create_agent_vault::handler(&house(), bot_id, 1, [b'a'; 16], &key(20), &key(21), 1, 2, 3, &key(22), 50)
        .unwrap()
        .0
}

#[test]
fn initialize_sets_defaults() {
    let (ch, ev) = initialize::handler(&fees(), &key(1), &key(2), &key(3), &key(4), &key(5), &key(6), 7, 8, 100).unwrap();
    assert_eq!(ch.authority, key(1));
    assert_eq!(ch.settler, key(2));
    assert_eq!(ch.platform_wallet, key(3));
    assert_eq!(ch.bonus_wallet, key(4));
    assert_eq!(ch.nft_rewarder, key(5));
    assert_eq!(ch.vault, key(6));
    assert_eq!((ch.vault_bump, ch.bump), (7, 8));
    assert_eq!((ch.min_odds_bps, ch.max_odds_bps, ch.odds_window_size), (4_500, 5_500, 10));
    assert_eq!(ch.max_cp_exposure_bps, 100);
    assert_eq!(ch.stale_bet_buffer_secs, 120);
    assert_eq!(ch.settle_buffer(), 120);
    assert_eq!(ch.next_bet_id, 0);
    assert!(!ch.paused && !ch.deposits_paused && !ch.withdrawals_paused && !ch.betting_paused);
    assert!(ch.pending_authority.is_default());
    assert_eq!(ev.authority, key(1));
}

#[test]
fn initialize_rejections() {
    let mut f = fees();
    f.deposit_fee_bps = 1_001;
    assert_eq!(init(&f).unwrap_err(), RogueTraderError::InvalidConfig);
    let mut f = fees();
    f.spread_to_lp_bps = 101;
    assert_eq!(init(&f).unwrap_err(), RogueTraderError::InvalidConfig);
    let mut f = fees();
    f.platform_fee_bps = 31;
    assert_eq!(init(&f).unwrap_err(), RogueTraderError::InvalidFeeSplit);
    // The shares must fit the withdrawal fee too.
    let mut f = fees();
    f.withdrawal_fee_bps = 0;
    assert_eq!(init(&f).unwrap_err(), RogueTraderError::InvalidWithdrawalFeeSplit);
    let mut f = fees();
    f.referral_bps = u16::MAX;
    assert_eq!(init(&f).unwrap_err(), RogueTraderError::MathOverflow);
}

#[test]
fn settle_buffer_default() {
    let mut ch = house();
    ch.stale_bet_buffer_secs = 0;
    assert_eq!(ch.settle_buffer(), 120);
    ch.stale_bet_buffer_secs = 300;
    assert_eq!(ch.settle_buffer(), 300);
}

#[test]
fn pause_all_or_some() {
    let mut ch = house();
    let (legacy, granular) = pause::handler(&mut ch, true, None, None, None, &key(1), 9);
    assert!(ch.paused && ch.deposits_paused && ch.withdrawals_paused && ch.betting_paused);
    assert!(legacy.paused);
    assert!(granular.deposits_paused);
    pause::handler(&mut ch, false, None, None, None, &key(1), 9);
    assert!(!ch.paused && !ch.deposits_paused && !ch.withdrawals_paused && !ch.betting_paused);
    // Granular flags win over `paused`; the legacy flag follows any of them.
    pause::handler(&mut ch, false, None, Some(true), None, &key(1), 9);
    assert!(!ch.deposits_paused && ch.withdrawals_paused && !ch.betting_paused);
    assert!(ch.paused);
    pause::handler(&mut ch, true, Some(false), Some(false), None, &key(1), 9);
    assert!(!ch.paused && !ch.deposits_paused && !ch.withdrawals_paused && !ch.betting_paused);
}

#[test]
fn authority_moves_in_two_steps() {
    let mut ch = house();
    assert_eq!(
        transfer_authority::accept_handler(&mut ch, &key(0), 1).unwrap_err(),
        RogueTraderError::NoPendingTransfer
    );
    transfer_authority::propose_handler(&mut ch, &key(9));
    assert_eq!(ch.authority, key(1));
    assert_eq!(ch.pending_authority, key(9));
    assert_eq!(
        transfer_authority::accept_handler(&mut ch, &key(8), 1).unwrap_err(),
        RogueTraderError::InvalidPendingAuthority
    );
    let ev = transfer_authority::accept_handler(&mut ch, &key(9), 2).unwrap();
    assert_eq!((ev.old_authority, ev.new_authority, ev.timestamp), (key(1), key(9), 2));
    assert_eq!(ch.authority, key(9));
    assert!(ch.pending_authority.is_default());
}

#[test]
fn config_update_changes_given_fields_only() {
    let mut ch = house();
    let before = ch;
    let mut u = no_update();
    u.deposit_fee_bps = Some(200);
    u.withdrawal_fee_bps = Some(200);
    u.platform_fee_bps = Some(130);
    u.settler = Some(key(30));
    u.invert_odds = Some(true);
    let changes = update_config::handler(&mut ch, &u, &key(1), 77).unwrap();
    assert_eq!(ch.deposit_fee_bps, 200);
    assert_eq!(ch.withdrawal_fee_bps, 200);
    assert_eq!(ch.platform_fee_bps, 130);
    assert_eq!(ch.settler, key(30));
    assert!(ch.invert_odds);
    assert_eq!(ch.referral_bps, before.referral_bps);
    assert_eq!(ch.min_odds_bps, before.min_odds_bps);
    assert_eq!(changes.len(), 5);
    match changes[0] {
        ConfigChange::Value(e) => assert_eq!((e.field_id, e.old_value, e.new_value, e.timestamp), (0, 100, 200, 77)),
        ConfigChange::Key(_) => panic!("expected a value change"),
    }
    match changes[3] {
        ConfigChange::Key(e) => assert_eq!((e.field_id, e.old_value, e.new_value), (10, key(2), key(30))),
        ConfigChange::Value(_) => panic!("expected a key change"),
    }
    match changes[4] {
        ConfigChange::Value(e) => assert_eq!((e.field_id, e.old_value, e.new_value), (15, 0, 1)),
        ConfigChange::Key(_) => panic!("expected a value change"),
    }
}

#[test]
fn config_update_rejections() {
    // A rejected update leaves the state as it was.
    let before = house();
    let reject = |u: &ConfigUpdate| {
        let mut ch = before;
        let e = update_config::handler(&mut ch, u, &key(1), 1).unwrap_err();
        assert_eq!(ch, before);
        e
    };
    let mut u = no_update();
    u.deposit_fee_bps = Some(1_001);
    assert_eq!(reject(&u), RogueTraderError::InvalidConfig);
    let mut u = no_update();
    u.odds_window_size = Some(0);
    assert_eq!(reject(&u), RogueTraderError::InvalidConfig);
    let mut u = no_update();
    u.stale_bet_buffer_secs = Some(601);
    assert_eq!(reject(&u), RogueTraderError::InvalidConfig);
    let mut u = no_update();
    u.spread_to_lp_bps = Some(101);
    assert_eq!(reject(&u), RogueTraderError::InvalidConfig);
    // Lowering the deposit fee below the LP part is refused too.
    let mut u = no_update();
    u.deposit_fee_bps = Some(10);
    assert_eq!(reject(&u), RogueTraderError::InvalidConfig);
    let mut u = no_update();
    u.deposit_fee_bps = Some(200);
    assert_eq!(reject(&u), RogueTraderError::InvalidFeeSplit);
    let mut u = no_update();
    u.withdrawal_fee_bps = Some(200);
    assert_eq!(reject(&u), RogueTraderError::InvalidWithdrawalFeeSplit);
}

#[test]
fn vault_creation() {
    let (v, ev) = create_agent_vault::handler(&house(), 4, 2, [b'x'; 16], &key(20), &key(21), 1, 2, 3, &key(22), 50).unwrap();
    assert_eq!((v.bot_id, v.group_id, v.name), (4, 2, [b'x'; 16]));
    assert_eq!((v.lp_mint, v.lp_authority), (key(20), key(21)));
    assert_eq!((v.lp_mint_bump, v.lp_authority_bump, v.bump), (1, 2, 3));
    assert_eq!(v.authorized_executor, key(2));
    assert_eq!((v.sol_balance, v.locked_sol, v.total_lp_supply), (0, 0, 0));
    assert_eq!(ev.vault_pubkey, key(22));
    assert_eq!(
        create_agent_vault::handler(&house(), 0, 2, [0; 16], &key(20), &key(21), 1, 2, 3, &key(22), 50).unwrap_err(),
        RogueTraderError::InvalidBotId
    );
    assert_eq!(
        create_agent_vault::handler(&house(), 31, 2, [0; 16], &key(20), &key(21), 1, 2, 3, &key(22), 50).unwrap_err(),
        RogueTraderError::InvalidBotId
    );
    assert_eq!(
        create_agent_vault::handler(&house(), 4, 6, [0; 16], &key(20), &key(21), 1, 2, 3, &key(22), 50).unwrap_err(),
        RogueTraderError::InvalidGroupId
    );
}

#[test]
fn funding_a_vault() {
    let mut v = new_vault(3);
    let ev = fund_vault::handler(&mut v, 5_000, 60).unwrap();
    assert_eq!(v.sol_balance, 5_000);
    assert_eq!((ev.bot_id, ev.amount, ev.new_balance), (3, 5_000, 5_000));
    assert_eq!(fund_vault::handler(&mut v, 0, 60).unwrap_err(), RogueTraderError::ZeroAmount);
    assert_eq!(fund_vault::handler(&mut v, u64::MAX, 60).unwrap_err(), RogueTraderError::MathOverflow);
    assert_eq!(v.sol_balance, 5_000);
}

#[test]
fn resetting_a_vault() {
    let ch = house();
    let mut v = new_vault(3);
    v.sol_balance = 1_000;
    v.total_lp_supply = 900;
    v.active_bet_count = 1;
    v.locked_sol = 600;
    assert_eq!(
        admin_reset_vault::handler(&ch, &mut v, &key(9), 0, 0, 0, None, None, None).unwrap_err(),
        RogueTraderError::UnauthorizedSettler
    );
    assert_eq!(
        admin_reset_vault::handler(&ch, &mut v, &key(1), 0, 2_000, 0, None, None, None).unwrap_err(),
        RogueTraderError::InvalidConfig
    );
    assert_eq!(
        admin_reset_vault::handler(&ch, &mut v, &key(1), 0, 10, 20, None, None, None).unwrap_err(),
        RogueTraderError::InvalidConfig
    );
    admin_reset_vault::handler(&ch, &mut v, &key(2), 0, 0, 0, Some(700), Some(key(40)), Some(9)).unwrap();
    assert_eq!((v.active_bet_count, v.locked_sol, v.counterparty_locked_sol), (0, 0, 0));
    assert_eq!(v.sol_balance, 700);
    assert_eq!(v.lp_mint, key(40));
    assert_eq!(v.lp_mint_bump, 9);
    assert_eq!(v.total_lp_supply, 0);
}

#[test]
fn group_configuration() {
    let feeds = vec![key(11), key(12)];
    let (g, ev) = create_group_config::handler(2, [b'g'; 32], &feeds, 4, 10).unwrap();
    assert_eq!(g.group_id, 2);
    assert_eq!(g.feed_count, 2);
    assert_eq!(g.pyth_feeds[0], key(11));
    assert_eq!(g.pyth_feeds[1], key(12));
    assert_eq!(g.pyth_feeds[2], key(0));
    assert_eq!(g.bump, 4);
    assert_eq!(ev.group_id, 2);
    assert_eq!(create_group_config::handler(0, [0; 32], &feeds, 4, 10).unwrap_err(), RogueTraderError::InvalidGroupId);
    let many: Vec<Pubkey> = (0..21).map(key).collect();
    assert_eq!(create_group_config::handler(1, [0; 32], &many, 4, 10).unwrap_err(), RogueTraderError::TooManyFeeds);
    let mut g = g;
    update_group_feeds::handler(&mut g, &vec![key(13)], 1).unwrap();
    assert_eq!(g.feed_count, 1);
    assert_eq!(g.pyth_feeds[0], key(13));
    assert_eq!(g.pyth_feeds[1], key(0));
    assert!(g.has_feed_id(&[13; 32]));
    assert_eq!(update_group_feeds::handler(&mut g, &vec![key(13)], 2).unwrap_err(), RogueTraderError::InvalidConfig);
    assert_eq!(update_group_feeds::handler(&mut g, &many, 21).unwrap_err(), RogueTraderError::TooManyFeeds);
}

#[test]
fn player_sets_referrer_once() {
    let mut player = empty_player();
    player.wallet = key(50);
    let mut referrer_ps = empty_player();
    referrer_ps.wallet = key(51);
    referrer_ps.referrer = key(52);
    let mut rs = empty_referral();
    rs.referrer = key(51);
    assert_eq!(
        set_referrer::handler(&mut player, &referrer_ps, &mut rs, &key(50), &key(50), 1).unwrap_err(),
        RogueTraderError::SelfReferral
    );
    assert_eq!(
        set_referrer::handler(&mut player, &referrer_ps, &mut rs, &key(50), &key(0), 1).unwrap_err(),
        RogueTraderError::InvalidReferrer
    );
    let ev = set_referrer::handler(&mut player, &referrer_ps, &mut rs, &key(50), &key(51), 1).unwrap();
    assert_eq!(player.referrer, key(51));
    assert_eq!(player.tier2_referrer, key(52));
    assert_eq!(rs.referral_count, 1);
    assert_eq!(ev.tier2_referrer, key(52));
    assert_eq!(
        set_referrer::handler(&mut player, &referrer_ps, &mut rs, &key(50), &key(53), 1).unwrap_err(),
        RogueTraderError::ReferrerAlreadySet
    );
}

#[test]
fn settler_sets_referrer() {
    let ch = house();
    let program = key(42);
    let mut player = empty_player();
    let mut rs = empty_referral();
    // The referrer's own player account: wallet at 8..40, its referrer at 40..72.
    let mut data = vec![0u8; 8];
    data.extend_from_slice(&[51u8; 32]);
    data.extend_from_slice(&[52u8; 32]);
    data.extend_from_slice(&[0u8; 40]);
    assert_eq!(
        admin_set_referrer::handler(&ch, &mut player, &mut rs, &key(9), &key(50), &key(51), &data, &program, &program, 4, 5, 1)
            .unwrap_err(),
        RogueTraderError::UnauthorizedSettler
    );
    let ev = admin_set_referrer::handler(
        &ch, &mut player, &mut rs, &key(2), &key(50), &key(51), &data, &program, &program, 4, 5, 1,
    )
    .unwrap();
    assert_eq!(player.wallet, key(50));
    assert_eq!(player.bump, 4);
    assert_eq!(player.referrer, key(51));
    assert_eq!(player.tier2_referrer, key(52));
    assert_eq!((rs.referrer, rs.bump, rs.referral_count), (key(51), 5, 1));
    assert_eq!(ev.player, key(50));
    // An account not owned by the program gives no tier-2 referrer.
    let mut other = empty_player();
    let mut rs2 = empty_referral();
    admin_set_referrer::handler(&ch, &mut other, &mut rs2, &key(2), &key(60), &key(51), &data, &key(43), &program, 4, 5, 1)
        .unwrap();
    assert_eq!(other.tier2_referrer, key(0));
}
