use anchor_lang::prelude::Pubkey as SolanaKey;
use roguetrader::clock::Clock;
use roguetrader::error::RogueTraderError;
use roguetrader::instructions::create_lp_metadata::borsh_string;
use roguetrader::instructions::deposit_sol::{self, lp_tokens_for_deposit, plan_deposit};
use roguetrader::instructions::draw_raffle::{self, raffle_seed, raffle_weights, select_winner, RaffleState};
use roguetrader::instructions::fees::{check_fee_wallets, record_fee_stats, update_referral_earnings, FeeOutcome};
use roguetrader::instructions::initialize::{self, FeeConfig};
use roguetrader::instructions::withdraw_sol::{self, plan_withdraw};
use roguetrader::instructions::{create_agent_vault, create_lp_metadata, update_lp_metadata};
use roguetrader::pubkey::Pubkey;
use roguetrader::state::agent_vault::{AgentVault, MINIMUM_LIQUIDITY};
use roguetrader::state::clearing_house::ClearingHouseState;
use roguetrader::state::player_state::PlayerState;

const PROGRAM: [u8; 32] = [42; 32];

fn key(b: u8) -> Pubkey {
    Pubkey::new_from_array([b; 32])
}

fn house() -> ClearingHouseState {
    let f = FeeConfig {
        deposit_fee_bps: 100,
        withdrawal_fee_bps: 100,
        referral_bps: 20,
        tier2_referral_bps: 10,
        bonus_bps: 10,
        nft_reward_bps: 10,
        platform_fee_bps: 30,
        spread_to_lp_bps: 20,
    };
    initialize::handler(&f, &key(1), &key(2), &key(3), &key(4), &key(5), &key(6), 7, 8, 100).unwrap().0
}

fn vault(bot_id: u8, sol_balance: u64) -> AgentVault {
    let mut v = create_agent_vault::handler(&house(), bot_id, 1, [0; 16], &key(20), &key(21), 1, 2, 3, &key(22), 0)
        .unwrap()
        .0;
    v.sol_balance = sol_balance;
    v
}

fn vault_key(bot_id: u8) -> Pubkey {
    let (pda, _) = SolanaKey::find_program_address(&[b"agent_vault", &[bot_id]], &SolanaKey::new_from_array(PROGRAM));
    Pubkey::new_from_array(pda.to_bytes())
}

fn player() -> PlayerState {
    PlayerState {
        wallet: key(0),
        referrer: key(0),
        tier2_referrer: key(0),
        total_deposited: 0,
        total_withdrawn: 0,
        deposit_count: 0,
        withdrawal_count: 0,
        bump: 0,
        _reserved: [0; 64],
    }
}

fn no_fees_paid() -> FeeOutcome {
    FeeOutcome { ref_paid: 0, ref_redirected: false, t2_paid: 0, t2_redirected: false, bonus_paid: 0, nft_paid: 0, plat_paid: 0 }
}

fn raffle_state(pool: u64) -> RaffleState {
    RaffleState {
        raffle_paused: false,
        rewards_pool_balance: pool,
        last_raffle_timestamp: 0,
        raffle_interval_secs: 3_600,
        total_raffles_drawn: 0,
        total_rewards_distributed: 0,
        last_winner_bot_id: 0,
        last_winner_amount: 0,
    }
}

#[test]
fn first_deposit_into_new_vault() {
    let mut ch = house();
    let mut v = vault(3, 0);
    let mut p = player();
    let plan = plan_deposit(&ch, 1_000_000).unwrap();
    let lp = lp_tokens_for_deposit(plan.lp_basis, v.sol_balance, v.total_lp_supply).unwrap();
    assert_eq!(lp, 990_000 - MINIMUM_LIQUIDITY);
    let ev = deposit_sol::handler(&mut ch, &mut v, &mut p, 1_000_000, &no_fees_paid(), &key(70), 9, 5).unwrap();
    // The vault keeps the LP part of the fee; the wallets' part left (none was paid here).
    assert_eq!(v.sol_balance, 992_000);
    assert_eq!(v.total_lp_supply, 990_000);
    assert_eq!(v.total_deposited, 992_000);
    assert_eq!(v.deposit_count, 1);
    assert_eq!(p.wallet, key(70));
    assert_eq!(p.bump, 9);
    assert_eq!(p.total_deposited, 1_000_000);
    assert_eq!(ch.total_deposit_fees, 10_000);
    assert_eq!(ev.lp_minted, lp);
}

#[test]
fn withdraw_all_minted_tokens() {
    let mut ch = house();
    let mut v = vault(3, 0);
    let mut p = player();
    let plan = plan_deposit(&ch, 1_000_000).unwrap();
    let lp = lp_tokens_for_deposit(plan.lp_basis, v.sol_balance, v.total_lp_supply).unwrap();
    deposit_sol::handler(&mut ch, &mut v, &mut p, 1_000_000, &no_fees_paid(), &key(70), 9, 5).unwrap();
    let w = plan_withdraw(&ch, &v, lp).unwrap();
    // 980,000 of 990,000 tokens claim 980,000 × 992,000 / 990,000.
    assert_eq!(w.gross_sol, 981_979);
    assert_eq!(w.fee.total_spread, 9_819);
    assert_eq!(w.net_sol, 972_160);
    let out = withdraw_sol::handler(&mut ch, &mut v, &mut p, lp, &no_fees_paid(), &key(70), 9, 6).unwrap();
    assert_eq!(out.sol_returned, w.net_sol);
    assert_eq!(out.lp_burned, lp);
    assert_eq!(v.total_lp_supply, MINIMUM_LIQUIDITY);
    assert_eq!(p.total_withdrawn, 981_979);
    assert!(w.net_sol < 1_000_000);
}

#[test]
fn fee_wallets_must_match() {
    let ch = house();
    let mut p = player();
    // No referrers: their shares go to the platform wallet.
    assert_eq!(check_fee_wallets(&ch, &p, &key(3), &key(3), &key(4), &key(5), &key(3)), Ok(()));
    assert_eq!(
        check_fee_wallets(&ch, &p, &key(9), &key(3), &key(4), &key(5), &key(3)),
        Err(RogueTraderError::InvalidFeeWallet)
    );
    p.referrer = key(9);
    assert_eq!(check_fee_wallets(&ch, &p, &key(9), &key(3), &key(4), &key(5), &key(3)), Ok(()));
    assert_eq!(
        check_fee_wallets(&ch, &p, &key(9), &key(3), &key(6), &key(5), &key(3)),
        Err(RogueTraderError::InvalidFeeWallet)
    );
}

#[test]
fn fee_statistics() {
    let mut ch = house();
    let mut p = player();
    p.referrer = key(9);
    let o = FeeOutcome { ref_paid: 100, ref_redirected: false, t2_paid: 50, t2_redirected: false, bonus_paid: 7, nft_paid: 8, plat_paid: 9 };
    record_fee_stats(&mut ch, &p, &o);
    // No tier-2 referrer: its share counts as a platform fee.
    assert_eq!(ch.total_referral_paid, 100);
    assert_eq!(ch.total_platform_fees_paid, 59);
    assert_eq!(ch.total_bonus_paid, 7);
    assert_eq!(ch.total_nft_rewards_paid, 8);
}

#[test]
fn referral_earnings_credited() {
    let program = Pubkey::new_from_array(PROGRAM);
    let referrer = key(9);
    let (pda, _) = SolanaKey::find_program_address(&[b"referral_state", &[9u8; 32]], &SolanaKey::new_from_array(PROGRAM));
    let account = Pubkey::new_from_array(pda.to_bytes());
    let mut data = vec![0u8; 120];
    data[40..48].copy_from_slice(&500u64.to_le_bytes());
    update_referral_earnings(&account, &program, &mut data, &referrer, &program, 25);
    assert_eq!(u64::from_le_bytes(data[40..48].try_into().unwrap()), 525);
    // Another account is left alone.
    let mut other = data.clone();
    update_referral_earnings(&key(1), &program, &mut other, &referrer, &program, 25);
    assert_eq!(other, data);
}

#[test]
fn raffle_weights_favour_small_vaults() {
    let (w, total) = raffle_weights(&vec![100, 300, 200]);
    assert_eq!(w, vec![201, 1, 101]);
    assert_eq!(total, 303);
    assert_eq!(select_winner(&w, total, 0), 0);
    assert_eq!(select_winner(&w, total, 200), 0);
    assert_eq!(select_winner(&w, total, 201), 1);
    assert_eq!(select_winner(&w, total, 202), 2);
    assert_eq!(select_winner(&w, total, 303 + 201), 1);
}

#[test]
fn raffle_seed_is_blake3_of_slot_and_number() {
    let mut input = 12_345u64.to_le_bytes().to_vec();
    input.extend_from_slice(&3u64.to_le_bytes());
    let h = blake3::hash(&input);
    let expected = u64::from_le_bytes(h.as_bytes()[0..8].try_into().unwrap());
    assert_eq!(raffle_seed(12_345, 3), expected);
    assert_ne!(raffle_seed(12_345, 3), raffle_seed(12_345, 4));
}

#[test]
fn raffle_draw_pays_the_pool() {
    let ch = house();
    let mut rs = raffle_state(1_000);
    let mut vaults = vec![vault(1, 100), vault(2, 300), vault(3, 200)];
    let keys: Vec<Pubkey> = (1..=3).map(vault_key).collect();
    let clock = Clock { slot: 77, epoch_start_timestamp: 0, epoch: 0, leader_schedule_epoch: 0, unix_timestamp: 5_000 };
    let ev = draw_raffle::handler(&mut rs, &ch, &key(2), &clock, &mut vaults, &keys, &Pubkey::new_from_array(PROGRAM)).unwrap();
    let w = select_winner(&vec![201, 1, 101], 303, raffle_seed(77, 0));
    assert_eq!(ev.winner_bot_id as usize, w + 1);
    assert_eq!(ev.reward_amount, 1_000);
    assert_eq!(ev.total_weight, 303);
    assert_eq!(vaults[w].sol_balance, [100, 300, 200][w] + 1_000);
    assert_eq!(rs.rewards_pool_balance, 0);
    assert_eq!(rs.total_raffles_drawn, 1);
    assert_eq!(rs.total_rewards_distributed, 1_000);
    assert_eq!(rs.last_raffle_timestamp, 5_000);
    // Too early for the next draw.
    rs.rewards_pool_balance = 10;
    let clock2 = Clock { unix_timestamp: 5_100, ..clock };
    assert_eq!(
        draw_raffle::handler(&mut rs, &ch, &key(2), &clock2, &mut vaults, &keys, &Pubkey::new_from_array(PROGRAM)).unwrap_err(),
        RogueTraderError::RaffleTooEarly
    );
}

#[test]
fn raffle_rejections() {
    let ch = house();
    let mut vaults = vec![vault(1, 100)];
    let keys = vec![vault_key(1)];
    let clock = Clock { slot: 1, epoch_start_timestamp: 0, epoch: 0, leader_schedule_epoch: 0, unix_timestamp: 5_000 };
    let program = Pubkey::new_from_array(PROGRAM);
    let mut empty = raffle_state(0);
    assert_eq!(
        draw_raffle::handler(&mut empty, &ch, &key(2), &clock, &mut vaults, &keys, &program).unwrap_err(),
        RogueTraderError::EmptyRewardsPool
    );
    let mut paused = raffle_state(5);
    paused.raffle_paused = true;
    assert_eq!(
        draw_raffle::handler(&mut paused, &ch, &key(2), &clock, &mut vaults, &keys, &program).unwrap_err(),
        RogueTraderError::RafflePaused
    );
    let mut rs = raffle_state(5);
    assert_eq!(
        draw_raffle::handler(&mut rs, &ch, &key(9), &clock, &mut vaults, &keys, &program).unwrap_err(),
        RogueTraderError::UnauthorizedSettler
    );
    assert_eq!(
        draw_raffle::handler(&mut rs, &ch, &key(2), &clock, &mut vaults, &vec![key(8)], &program).unwrap_err(),
        RogueTraderError::InvalidCounterpartyVault
    );
}

#[test]
fn borsh_strings() {
    let mut buf = vec![7u8];
    borsh_string(&mut buf, "ab");
    assert_eq!(buf, vec![7, 2, 0, 0, 0, b'a', b'b']);
    borsh_string(&mut buf, "");
    assert_eq!(buf, vec![7, 2, 0, 0, 0, b'a', b'b', 0, 0, 0, 0]);
}

#[test]
fn lp_metadata_instruction_data() {
    let v = vault(3, 0);
    let data = create_lp_metadata::handler(&v, 3, "Bot", "B3", "u").unwrap();
    let mut expected = vec![33u8, 3, 0, 0, 0, b'B', b'o', b't', 2, 0, 0, 0, b'B', b'3', 1, 0, 0, 0, b'u'];
    expected.extend_from_slice(&[0, 0, 0, 0, 0, 1, 0]);
    assert_eq!(data, expected);
    assert_eq!(create_lp_metadata::handler(&v, 4, "Bot", "B3", "u").unwrap_err(), RogueTraderError::InvalidBotId);
    assert_eq!(
        create_lp_metadata::handler(&v, 3, "Bot", "SYMBOLTOOLONG", "u").unwrap_err(),
        RogueTraderError::InvalidConfig
    );
    let update = update_lp_metadata::handler(&v, 3, "Bot", "B3", "u").unwrap();
    let mut expected = vec![15u8, 1, 3, 0, 0, 0, b'B', b'o', b't', 2, 0, 0, 0, b'B', b'3', 1, 0, 0, 0, b'u'];
    expected.extend_from_slice(&[0, 0, 0, 0, 0, 0, 0, 1, 1]);
    assert_eq!(update, expected);
}

#[test]
fn rejected_deposit_and_withdrawal_change_nothing() {
    let mut ch = house();
    let mut v = vault(3, 0);
    let mut p = player();
    let (ch0, v0, p0) = (ch, v, p);
    // Below the locked minimum on a first deposit.
    assert_eq!(
        deposit_sol::handler(&mut ch, &mut v, &mut p, 10_000, &no_fees_paid(), &key(70), 9, 5).unwrap_err(),
        RogueTraderError::DepositTooSmall
    );
    assert_eq!(
        deposit_sol::handler(&mut ch, &mut v, &mut p, 0, &no_fees_paid(), &key(70), 9, 5).unwrap_err(),
        RogueTraderError::ZeroAmount
    );
    assert_eq!(
        withdraw_sol::handler(&mut ch, &mut v, &mut p, 10, &no_fees_paid(), &key(70), 9, 5).unwrap_err(),
        RogueTraderError::InsufficientLiquidity
    );
    assert_eq!((ch, v, p), (ch0, v0, p0));
}

#[test]
fn deposit_handler_prices_like_the_plan() {
    let mut ch = house();
    let mut v = vault(3, 2_000_000);
    v.total_lp_supply = 1_000_000;
    let mut p = player();
    let plan = plan_deposit(&ch, 500_000).unwrap();
    let lp = lp_tokens_for_deposit(plan.lp_basis, v.sol_balance, v.total_lp_supply).unwrap();
    let (b0, s0) = (v.sol_balance, v.total_lp_supply);
    let ev = deposit_sol::handler(&mut ch, &mut v, &mut p, 500_000, &no_fees_paid(), &key(70), 9, 5).unwrap();
    assert_eq!(ev.lp_minted, lp);
    assert_eq!(v.total_lp_supply, s0 + lp);
    assert_eq!(v.sol_balance, b0 + plan.vault_credit);
    // SOL per LP token does not fall.
    assert!((v.sol_balance as u128) * (s0 as u128) >= (b0 as u128) * (v.total_lp_supply as u128));
}
