use roguetrader::error::RogueTraderError;
use roguetrader::instructions::deposit_sol::{lp_tokens_for_deposit, plan_deposit};
use roguetrader::instructions::fees::{
    distribute_fee_with_fallback, fee_paid, fee_split, FeeTransfer, DEFAULT_RENT_EXEMPT_MIN,
};
use roguetrader::instructions::initialize::checked_split_sum;
use roguetrader::instructions::withdraw_sol::plan_withdraw;
use roguetrader::pubkey::Pubkey;
use roguetrader::state::agent_vault::{AgentVault, MINIMUM_LIQUIDITY};
use roguetrader::state::clearing_house::ClearingHouseState;

fn key(b: u8) -> Pubkey {
    Pubkey::new_from_array([b; 32])
}

fn vault(bot_id: u8, sol_balance: u64, locked_sol: u64, supply: u64) -> AgentVault {
    AgentVault {
        bot_id,
        group_id: 0,
        name: [0; 16],
        lp_mint: key(0),
        lp_authority: key(0),
        lp_mint_bump: 0,
        lp_authority_bump: 0,
        sol_balance,
        locked_sol,
        total_lp_supply: supply,
        total_deposited: 0,
        total_withdrawn: 0,
        deposit_count: 0,
        withdrawal_count: 0,
        authorized_executor: key(0),
        bet_window: [0; 100],
        window_head: 0,
        window_count: 0,
        wins_in_window: 0,
        bets_proposed: 0,
        bets_won: 0,
        bets_lost: 0,
        bets_tied: 0,
        active_bet_count: 0,
        bump: 0,
        counterparty_locked_sol: 0,
        _reserved: [0; 56],
    }
}

fn house() -> ClearingHouseState {
    ClearingHouseState {
        authority: key(1),
        settler: key(2),
        deposit_fee_bps: 100,
        withdrawal_fee_bps: 100,
        referral_bps: 20,
        tier2_referral_bps: 10,
        bonus_bps: 10,
        nft_reward_bps: 10,
        platform_fee_bps: 30,
        platform_wallet: key(3),
        bonus_wallet: key(4),
        nft_rewarder: key(5),
        paused: false,
        next_bet_id: 0,
        total_bets_proposed: 0,
        total_bets_settled: 0,
        total_volume: 0,
        total_deposit_fees: 0,
        total_withdrawal_fees: 0,
        total_referral_paid: 0,
        total_nft_rewards_paid: 0,
        total_platform_fees_paid: 0,
        total_bonus_paid: 0,
        vault: key(6),
        vault_bump: 0,
        vault_lookup_table: key(0),
        bump: 0,
        min_odds_bps: 0,
        max_odds_bps: 0,
        odds_window_size: 0,
        invert_odds: false,
        spread_to_lp_bps: 20,
        max_cp_exposure_bps: 0,
        stale_bet_buffer_secs: 0,
        deposits_paused: false,
        withdrawals_paused: false,
        betting_paused: false,
        pending_authority: key(0),
        _reserved: [0; 74],
    }
}

#[test]
fn fee_split_exact_values() {
    // 1% of 1 SOL is 10,000,000 lamports; 20 of the 100 bps stay with LPs.
    let s = fee_split(1_000_000_000, 100, 20).unwrap();
    assert_eq!(s.total_spread, 10_000_000);
    assert_eq!(s.lp_spread, 2_000_000);
    assert_eq!(s.distribute_amount, 8_000_000);
    assert_eq!(s.wallet_fee_bps, 80);
}

#[test]
fn fee_split_zero_fee_rate() {
    let s = fee_split(5_000, 0, 20).unwrap();
    assert_eq!(s.total_spread, 0);
    assert_eq!(s.lp_spread, 0);
    assert_eq!(s.distribute_amount, 0);
    assert_eq!(s.wallet_fee_bps, 0);
}

#[test]
fn fee_split_lp_part_above_fee_overflows() {
    assert_eq!(fee_split(1_000_000, 50, 80), Err(RogueTraderError::MathOverflow));
}

#[test]
fn fee_split_rounds_down() {
    let s = fee_split(999, 100, 20).unwrap();
    assert_eq!(s.total_spread, 9);
    assert_eq!(s.lp_spread, 1);
    assert_eq!(s.distribute_amount, 8);
}

#[test]
fn fee_transfer_goes_to_recipient() {
    let t = distribute_fee_with_fallback(&key(7), &key(3), 5_000_000, DEFAULT_RENT_EXEMPT_MIN, 8_000_000, 20, 80);
    assert_eq!(t, Some(FeeTransfer { share: 2_000_000, to_fallback: false }));
}

#[test]
fn fee_transfer_falls_back_for_empty_account_below_rent() {
    let t = distribute_fee_with_fallback(&key(7), &key(3), 0, DEFAULT_RENT_EXEMPT_MIN, 8_000, 20, 80);
    assert_eq!(t, Some(FeeTransfer { share: 2_000, to_fallback: true }));
}

#[test]
fn fee_transfer_to_empty_account_above_rent_is_direct() {
    let t = distribute_fee_with_fallback(&key(7), &key(3), 0, DEFAULT_RENT_EXEMPT_MIN, 8_000_000, 20, 80);
    assert_eq!(t, Some(FeeTransfer { share: 2_000_000, to_fallback: false }));
}

#[test]
fn fee_transfer_to_the_fallback_itself_never_redirects() {
    let t = distribute_fee_with_fallback(&key(3), &key(3), 0, DEFAULT_RENT_EXEMPT_MIN, 8_000, 20, 80);
    assert_eq!(t, Some(FeeTransfer { share: 2_000, to_fallback: false }));
}

#[test]
fn fee_transfer_nothing_to_pay() {
    assert_eq!(distribute_fee_with_fallback(&key(7), &key(3), 1, 1, 8_000, 0, 80), None);
    assert_eq!(distribute_fee_with_fallback(&key(0), &key(3), 1, 1, 8_000, 20, 80), None);
    assert_eq!(distribute_fee_with_fallback(&key(7), &key(3), 1, 1, 0, 20, 80), None);
    assert_eq!(distribute_fee_with_fallback(&key(7), &key(3), 1, 1, 8_000, 20, 0), None);
    // 3 × 20 / 80 rounds to zero.
    assert_eq!(distribute_fee_with_fallback(&key(7), &key(3), 1, 1, 3, 20, 80), None);
}

#[test]
fn fee_paid_only_on_success() {
    let t = Some(FeeTransfer { share: 42, to_fallback: true });
    assert_eq!(fee_paid(t, true), (42, true));
    assert_eq!(fee_paid(t, false), (0, false));
    assert_eq!(fee_paid(None, true), (0, false));
}

#[test]
fn split_sum_adds_and_detects_overflow() {
    assert_eq!(checked_split_sum(20, 10, 10, 10, 30), Ok(80));
    assert_eq!(checked_split_sum(u16::MAX, 1, 0, 0, 0), Err(RogueTraderError::MathOverflow));
}

#[test]
fn first_deposit_locks_minimum_liquidity() {
    assert_eq!(lp_tokens_for_deposit(1_000_000, 0, 0), Ok(1_000_000 - MINIMUM_LIQUIDITY));
    assert_eq!(lp_tokens_for_deposit(MINIMUM_LIQUIDITY, 0, 0), Err(RogueTraderError::DepositTooSmall));
}

#[test]
fn later_deposit_mints_pro_rata() {
    // 500 lamports into a vault of 2,000 lamports backing 1,000 LP tokens.
    assert_eq!(lp_tokens_for_deposit(500, 2_000, 1_000), Ok(250));
    assert_eq!(lp_tokens_for_deposit(1, 2_000, 1_000), Err(RogueTraderError::DepositTooSmall));
    assert_eq!(lp_tokens_for_deposit(500, 0, 1_000), Err(RogueTraderError::MathOverflow));
}

#[test]
fn deposit_plan_splits_amount() {
    let p = plan_deposit(&house(), 1_000_000_000).unwrap();
    assert_eq!(p.amount, 1_000_000_000);
    assert_eq!(p.fee.total_spread, 10_000_000);
    assert_eq!(p.vault_credit, 992_000_000);
    assert_eq!(p.lp_basis, 990_000_000);
    // Law on concrete values: what the vault keeps and what is paid out make up the amount.
    assert_eq!(p.vault_credit + p.fee.distribute_amount, p.amount);
    assert_eq!(p.lp_basis + p.fee.total_spread, p.amount);
}

#[test]
fn deposit_plan_errors() {
    let mut ch = house();
    assert_eq!(plan_deposit(&ch, 0), Err(RogueTraderError::ZeroAmount));
    ch.deposits_paused = true;
    assert_eq!(plan_deposit(&ch, 10), Err(RogueTraderError::Paused));
    ch.deposits_paused = false;
    ch.paused = true;
    assert_eq!(plan_deposit(&ch, 10), Err(RogueTraderError::Paused));
}

#[test]
fn withdraw_plan_prices_on_free_capital() {
    // 4,000 balance, 1,000 locked, 1,000 LP tokens: 100 LP → 300 gross.
    let v = vault(3, 4_000, 1_000, 1_000);
    let mut ch = house();
    ch.withdrawal_fee_bps = 1_000;
    ch.spread_to_lp_bps = 0;
    let p = plan_withdraw(&ch, &v, 100).unwrap();
    assert_eq!(p.gross_sol, 300);
    assert_eq!(p.fee.total_spread, 30);
    assert_eq!(p.net_sol, 270);
}

#[test]
fn withdraw_plan_errors() {
    let ch = house();
    assert_eq!(plan_withdraw(&ch, &vault(3, 4_000, 0, 1_000), 0), Err(RogueTraderError::ZeroAmount));
    assert_eq!(
        plan_withdraw(&ch, &vault(3, 4_000, 0, 0), 10),
        Err(RogueTraderError::InsufficientLiquidity)
    );
    assert_eq!(
        plan_withdraw(&ch, &vault(3, 4_000, 4_000, 1_000), 10),
        Err(RogueTraderError::WithdrawTooSmall)
    );
    // More LP tokens than exist would claim more than the free capital.
    assert_eq!(
        plan_withdraw(&ch, &vault(3, 4_000, 0, 1_000), 2_000),
        Err(RogueTraderError::InsufficientFreeCapital)
    );
    let mut paused = house();
    paused.withdrawals_paused = true;
    assert_eq!(plan_withdraw(&paused, &vault(3, 4_000, 0, 1_000), 10), Err(RogueTraderError::Paused));
}

#[test]
fn deposit_then_withdraw_returns_no_more_than_deposited() {
    let ch = house();
    let mut v = vault(4, 1_000_000, 0, 1_000_000);
    let plan = plan_deposit(&ch, 100_000).unwrap();
    let minted = lp_tokens_for_deposit(plan.lp_basis, v.sol_balance, v.total_lp_supply).unwrap();
    v.sol_balance += plan.vault_credit;
    v.total_lp_supply += minted;
    let w = plan_withdraw(&ch, &v, minted).unwrap();
    assert!(w.gross_sol <= plan.amount);
}

#[test]
fn wallet_shares_stay_within_fee() {
    // Shares 20, 10, 10, 10, 30 of 80 bps, on a fee that does not divide evenly.
    let fee = 7_919;
    let shares = [20u16, 10, 10, 10, 30];
    let paid: u64 = shares
        .iter()
        .map(|&s| distribute_fee_with_fallback(&key(7), &key(3), 5_000_000, 1, fee, s, 80).map_or(0, |t| t.share))
        .sum();
    assert!(paid <= fee);
    assert_eq!(paid, 1_979 + 989 + 989 + 989 + 2_969);
}

#[test]
fn deposit_does_not_dilute_holders() {
    let ch = house();
    let v = vault(4, 3_000_000, 500_000, 1_000_000);
    let plan = plan_deposit(&ch, 777_777).unwrap();
    let minted = lp_tokens_for_deposit(plan.lp_basis, v.sol_balance, v.total_lp_supply).unwrap();
    let balance = v.sol_balance + plan.vault_credit;
    let supply = v.total_lp_supply + minted;
    // balance / supply after ≥ balance / supply before.
    assert!((balance as u128) * (v.total_lp_supply as u128) >= (v.sol_balance as u128) * (supply as u128));
}

#[test]
fn withdrawal_does_not_dilute_holders() {
    let ch = house();
    let v = vault(4, 3_000_000, 500_000, 1_000_000);
    let w = plan_withdraw(&ch, &v, 333_333).unwrap();
    let effective_before = (v.sol_balance - v.locked_sol) as u128;
    let effective_after = effective_before - (w.gross_sol - w.fee.lp_spread) as u128;
    let supply_after = (v.total_lp_supply - 333_333) as u128;
    assert!(effective_after * (v.total_lp_supply as u128) >= effective_before * supply_after);
}

#[test]
fn deposit_price_past_u64_is_overflow() {
    // 2^64-1 × 2^64-1 / 1 does not fit in 64 bits: refused, not truncated.
    assert_eq!(lp_tokens_for_deposit(u64::MAX, 1, u64::MAX), Err(RogueTraderError::MathOverflow));
    assert_eq!(lp_tokens_for_deposit(u64::MAX, 2, 2), Ok(u64::MAX));
}

#[test]
fn withdrawal_value_past_u64_is_overflow() {
    let ch = house();
    // 2 LP tokens of a supply of 1 are worth twice the balance: past 64 bits.
    assert_eq!(plan_withdraw(&ch, &vault(3, u64::MAX, 0, 1), 2), Err(RogueTraderError::MathOverflow));
    // Within 64 bits it is the free-capital check that refuses it.
    assert_eq!(
        plan_withdraw(&ch, &vault(3, 1_000, 0, 1), 2),
        Err(RogueTraderError::InsufficientFreeCapital)
    );
}
