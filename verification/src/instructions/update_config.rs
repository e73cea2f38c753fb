//! Changing the clearing house configuration, field by field.

use vstd::prelude::*;
use crate::error::RogueTraderError;
use crate::events::{ConfigPubkeyUpdated, ConfigUpdated};
use crate::instructions::initialize::{MAX_FEE_BPS, checked_split_sum, split_sum};
use crate::pubkey::Pubkey;
use crate::state::clearing_house::ClearingHouseState;

verus! {

/// The settings to change; `None` leaves a setting as it is.
#[derive(Clone, Copy, Debug, PartialEq, Eq)]
pub struct ConfigUpdate {
    pub deposit_fee_bps: Option<u16>,
    pub withdrawal_fee_bps: Option<u16>,
    pub referral_bps: Option<u16>,
    pub tier2_referral_bps: Option<u16>,
    pub bonus_bps: Option<u16>,
    pub nft_reward_bps: Option<u16>,
    pub platform_fee_bps: Option<u16>,
    pub platform_wallet: Option<Pubkey>,
    pub bonus_wallet: Option<Pubkey>,
    pub nft_rewarder: Option<Pubkey>,
    pub settler: Option<Pubkey>,
    pub vault_lookup_table: Option<Pubkey>,
    pub min_odds_bps: Option<u16>,
    pub max_odds_bps: Option<u16>,
    pub odds_window_size: Option<u8>,
    pub invert_odds: Option<bool>,
    pub spread_to_lp_bps: Option<u16>,
    pub max_cp_exposure_bps: Option<u16>,
    pub stale_bet_buffer_secs: Option<i64>,
}

/// One reported change: a numeric setting or a key.
#[derive(Clone, Copy, Debug, PartialEq, Eq)]
pub enum ConfigChange {
    Value(ConfigUpdated),
    Key(ConfigPubkeyUpdated),
}

pub open spec fn or_keep<T>(o: Option<T>, prev: T) -> T {
    match o {
        Some(v) => v,
        None => prev,
    }
}

/// The fee settings (fields 0..=6) applied.
pub open spec fn fees_after(ch: ClearingHouseState, u: ConfigUpdate) -> ClearingHouseState {
    ClearingHouseState {
        deposit_fee_bps: or_keep(u.deposit_fee_bps, ch.deposit_fee_bps),
        withdrawal_fee_bps: or_keep(u.withdrawal_fee_bps, ch.withdrawal_fee_bps),
        referral_bps: or_keep(u.referral_bps, ch.referral_bps),
        tier2_referral_bps: or_keep(u.tier2_referral_bps, ch.tier2_referral_bps),
        bonus_bps: or_keep(u.bonus_bps, ch.bonus_bps),
        nft_reward_bps: or_keep(u.nft_reward_bps, ch.nft_reward_bps),
        platform_fee_bps: or_keep(u.platform_fee_bps, ch.platform_fee_bps),
        ..ch
    }
}

/// The key settings (fields 7..=11) applied.
pub open spec fn keys_after(ch: ClearingHouseState, u: ConfigUpdate) -> ClearingHouseState {
    ClearingHouseState {
        platform_wallet: or_keep(u.platform_wallet, ch.platform_wallet),
        bonus_wallet: or_keep(u.bonus_wallet, ch.bonus_wallet),
        nft_rewarder: or_keep(u.nft_rewarder, ch.nft_rewarder),
        settler: or_keep(u.settler, ch.settler),
        vault_lookup_table: or_keep(u.vault_lookup_table, ch.vault_lookup_table),
        ..ch
    }
}

/// The odds settings (fields 12..=15) applied.
pub open spec fn odds_after(ch: ClearingHouseState, u: ConfigUpdate) -> ClearingHouseState {
    ClearingHouseState {
        min_odds_bps: or_keep(u.min_odds_bps, ch.min_odds_bps),
        max_odds_bps: or_keep(u.max_odds_bps, ch.max_odds_bps),
        odds_window_size: or_keep(u.odds_window_size, ch.odds_window_size),
        invert_odds: or_keep(u.invert_odds, ch.invert_odds),
        ..ch
    }
}

/// The limit settings (fields 16..=18) applied.
pub open spec fn limits_after(ch: ClearingHouseState, u: ConfigUpdate) -> ClearingHouseState {
    ClearingHouseState {
        spread_to_lp_bps: or_keep(u.spread_to_lp_bps, ch.spread_to_lp_bps),
        max_cp_exposure_bps: or_keep(u.max_cp_exposure_bps, ch.max_cp_exposure_bps),
        stale_bet_buffer_secs: or_keep(u.stale_bet_buffer_secs, ch.stale_bet_buffer_secs),
        ..ch
    }
}

/// The configuration with every given setting applied.
pub open spec fn config_after(ch: ClearingHouseState, u: ConfigUpdate) -> ClearingHouseState {
    limits_after(odds_after(keys_after(fees_after(ch, u), u), u), u)
}

/// A given setting out of its range: fees above 10%, odds bounds above
/// 100%, a window outside 1..=100, an LP part above the deposit fee in
/// force, an exposure cap above 100%, a stale-bet buffer outside 0..=600 s.
pub open spec fn config_range_error(ch: ClearingHouseState, u: ConfigUpdate) -> bool {
    ||| fee_range_error(u)
    ||| odds_range_error(u)
    ||| limit_range_error(fees_after(ch, u).deposit_fee_bps, ch.spread_to_lp_bps, u)
}

/// The error an update ends with: a setting out of range, the wallet shares
/// overflowing, or not summing to the deposit fee, or to the withdrawal fee,
/// less the LP part.
pub open spec fn config_error(ch: ClearingHouseState, u: ConfigUpdate) -> Option<RogueTraderError> {
    let n = config_after(ch, u);
    let sum = split_sum(n.referral_bps, n.tier2_referral_bps, n.bonus_bps, n.nft_reward_bps, n.platform_fee_bps);
    if config_range_error(ch, u) {
        Some(RogueTraderError::InvalidConfig)
    } else if sum > u16::MAX {
        Some(RogueTraderError::MathOverflow)
    } else if sum != n.deposit_fee_bps.saturating_sub(n.spread_to_lp_bps) {
        Some(RogueTraderError::InvalidFeeSplit)
    } else if sum != n.withdrawal_fee_bps.saturating_sub(n.spread_to_lp_bps) {
        Some(RogueTraderError::InvalidWithdrawalFeeSplit)
    } else {
        None
    }
}

/// The report of one numeric setting, when given.
pub open spec fn value_change(field_id: u8, given: bool, prev: u64, next: u64, authority: Pubkey, now: i64) -> Seq<
    ConfigChange,
> {
    if given {
        seq![
            ConfigChange::Value(
                ConfigUpdated { field_id, old_value: prev, new_value: next, authority, timestamp: now },
            ),
        ]
    } else {
        seq![]
    }
}

/// The report of one key setting, when given.
pub open spec fn key_change(field_id: u8, next: Option<Pubkey>, prev: Pubkey, authority: Pubkey, now: i64) -> Seq<
    ConfigChange,
> {
    match next {
        Some(v) => seq![
            ConfigChange::Key(
                ConfigPubkeyUpdated { field_id, old_value: prev, new_value: v, authority, timestamp: now },
            ),
        ],
        None => seq![],
    }
}

pub open spec fn bool_value(b: bool) -> u64 {
    if b { 1 } else { 0 }
}

/// Reports of the deposit and withdrawal fee settings given.
pub open spec fn rate_changes(ch: ClearingHouseState, u: ConfigUpdate, authority: Pubkey, now: i64) -> Seq<
    ConfigChange,
> {
    let n = fees_after(ch, u);
    value_change(0, u.deposit_fee_bps is Some, ch.deposit_fee_bps as u64, n.deposit_fee_bps as u64, authority, now)
        + value_change(1, u.withdrawal_fee_bps is Some, ch.withdrawal_fee_bps as u64, n.withdrawal_fee_bps as u64, authority, now)
}

/// Reports of the wallet share settings given.
pub open spec fn share_changes(ch: ClearingHouseState, u: ConfigUpdate, authority: Pubkey, now: i64) -> Seq<
    ConfigChange,
> {
    let n = fees_after(ch, u);
    value_change(2, u.referral_bps is Some, ch.referral_bps as u64, n.referral_bps as u64, authority, now)
        + value_change(3, u.tier2_referral_bps is Some, ch.tier2_referral_bps as u64, n.tier2_referral_bps as u64, authority, now)
        + value_change(4, u.bonus_bps is Some, ch.bonus_bps as u64, n.bonus_bps as u64, authority, now)
        + value_change(5, u.nft_reward_bps is Some, ch.nft_reward_bps as u64, n.nft_reward_bps as u64, authority, now)
        + value_change(6, u.platform_fee_bps is Some, ch.platform_fee_bps as u64, n.platform_fee_bps as u64, authority, now)
}

/// Reports of the fee settings given.
pub open spec fn fee_changes(ch: ClearingHouseState, u: ConfigUpdate, authority: Pubkey, now: i64) -> Seq<
    ConfigChange,
> {
    rate_changes(ch, u, authority, now) + share_changes(ch, u, authority, now)
}

/// Reports of the key settings given.
pub open spec fn key_changes(ch: ClearingHouseState, u: ConfigUpdate, authority: Pubkey, now: i64) -> Seq<
    ConfigChange,
> {
    key_change(7, u.platform_wallet, ch.platform_wallet, authority, now)
        + key_change(8, u.bonus_wallet, ch.bonus_wallet, authority, now)
        + key_change(9, u.nft_rewarder, ch.nft_rewarder, authority, now)
        + key_change(10, u.settler, ch.settler, authority, now)
        + key_change(11, u.vault_lookup_table, ch.vault_lookup_table, authority, now)
}

/// Reports of the odds settings given.
pub open spec fn odds_changes(ch: ClearingHouseState, u: ConfigUpdate, authority: Pubkey, now: i64) -> Seq<
    ConfigChange,
> {
    let n = odds_after(ch, u);
    value_change(12, u.min_odds_bps is Some, ch.min_odds_bps as u64, n.min_odds_bps as u64, authority, now)
        + value_change(13, u.max_odds_bps is Some, ch.max_odds_bps as u64, n.max_odds_bps as u64, authority, now)
        + value_change(14, u.odds_window_size is Some, ch.odds_window_size as u64, n.odds_window_size as u64, authority, now)
        + value_change(15, u.invert_odds is Some, bool_value(ch.invert_odds), bool_value(n.invert_odds), authority, now)
}

/// Reports of the limit settings given.
pub open spec fn limit_changes(ch: ClearingHouseState, u: ConfigUpdate, authority: Pubkey, now: i64) -> Seq<
    ConfigChange,
> {
    let n = limits_after(ch, u);
    value_change(16, u.spread_to_lp_bps is Some, ch.spread_to_lp_bps as u64, n.spread_to_lp_bps as u64, authority, now)
        + value_change(17, u.max_cp_exposure_bps is Some, ch.max_cp_exposure_bps as u64, n.max_cp_exposure_bps as u64, authority, now)
        + value_change(18, u.stale_bet_buffer_secs is Some, ch.stale_bet_buffer_secs as u64, n.stale_bet_buffer_secs as u64, authority, now)
}

/// The reports of all given settings, in field order 0..=18.
pub open spec fn config_changes(ch: ClearingHouseState, u: ConfigUpdate, authority: Pubkey, now: i64) -> Seq<
    ConfigChange,
> {
    fee_changes(ch, u, authority, now) + key_changes(ch, u, authority, now) + odds_changes(
        ch,
        u,
        authority,
        now,
    ) + limit_changes(ch, u, authority, now)
}

/// A given fee out of range.
pub open spec fn fee_range_error(u: ConfigUpdate) -> bool {
    ||| (u.deposit_fee_bps matches Some(v) && v > MAX_FEE_BPS)
    ||| (u.withdrawal_fee_bps matches Some(v) && v > MAX_FEE_BPS)
}

/// A given odds setting out of range.
pub open spec fn odds_range_error(u: ConfigUpdate) -> bool {
    ||| (u.min_odds_bps matches Some(v) && v > 10_000)
    ||| (u.max_odds_bps matches Some(v) && v > 10_000)
    ||| (u.odds_window_size matches Some(v) && !(1 <= v <= 100))
}

/// A given limit out of range; the LP part is checked against the deposit
/// fee `deposit_fee_bps` in force.
pub open spec fn limit_range_error(deposit_fee_bps: u16, spread_to_lp_bps: u16, u: ConfigUpdate) -> bool {
    ||| or_keep(u.spread_to_lp_bps, spread_to_lp_bps) > deposit_fee_bps
    ||| (u.max_cp_exposure_bps matches Some(v) && v > 10_000)
    ||| (u.stale_bet_buffer_secs matches Some(v) && !(0 <= v <= 600))
}

fn push_value(
    changes: &mut Vec<ConfigChange>,
    field_id: u8,
    prev: u64,
    next: u64,
    authority: &Pubkey,
    now: i64,
)
    ensures
        final(changes)@ == old(changes)@ + value_change(field_id, true, prev, next, *authority, now),
{
    let ghost before = changes@;
    changes.push(
        ConfigChange::Value(
            ConfigUpdated { field_id, old_value: prev, new_value: next, authority: *authority, timestamp: now },
        ),
    );
    assert(changes@ =~= before + value_change(field_id, true, prev, next, *authority, now));
}

fn push_key(
    changes: &mut Vec<ConfigChange>,
    field_id: u8,
    prev: &Pubkey,
    next: &Pubkey,
    authority: &Pubkey,
    now: i64,
)
    ensures
        final(changes)@ == old(changes)@ + key_change(field_id, Some(*next), *prev, *authority, now),
{
    let ghost before = changes@;
    changes.push(
        ConfigChange::Key(
            ConfigPubkeyUpdated {
                field_id,
                old_value: *prev,
                new_value: *next,
                authority: *authority,
                timestamp: now,
            },
        ),
    );
    assert(changes@ =~= before + key_change(field_id, Some(*next), *prev, *authority, now));
}

fn record_value(
    changes: &mut Vec<ConfigChange>,
    field_id: u8,
    given: bool,
    prev: u64,
    next: u64,
    authority: &Pubkey,
    now: i64,
)
    ensures
        final(changes)@ == old(changes)@ + value_change(field_id, given, prev, next, *authority, now),
{
    if given {
        push_value(changes, field_id, prev, next, authority, now);
    } else {
        assert(changes@ =~= changes@ + value_change(field_id, given, prev, next, *authority, now));
    }
}

fn record_key(
    changes: &mut Vec<ConfigChange>,
    field_id: u8,
    next: Option<Pubkey>,
    prev: &Pubkey,
    authority: &Pubkey,
    now: i64,
) -> (r: Pubkey)
    ensures
        r == or_keep(next, *prev),
        final(changes)@ == old(changes)@ + key_change(field_id, next, *prev, *authority, now),
{
    match next {
        Some(v) => {
            push_key(changes, field_id, prev, &v, authority, now);
            v
        },
        None => {
            assert(changes@ =~= changes@ + key_change(field_id, next, *prev, *authority, now));
            *prev
        },
    }
}

fn pick_u16(given: Option<u16>, cur: u16) -> (r: u16)
    ensures
        r == or_keep(given, cur),
{
    match given {
        Some(v) => v,
        None => cur,
    }
}

fn apply_fee_rates(
    ch: &mut ClearingHouseState,
    u: &ConfigUpdate,
    changes: &mut Vec<ConfigChange>,
    authority: &Pubkey,
    now: i64,
)
    ensures
        *final(ch) == (ClearingHouseState {
            deposit_fee_bps: fees_after(*old(ch), *u).deposit_fee_bps,
            withdrawal_fee_bps: fees_after(*old(ch), *u).withdrawal_fee_bps,
            ..*old(ch)
        }),
        final(changes)@ == old(changes)@ + rate_changes(*old(ch), *u, *authority, now),
{
    let ghost c0 = changes@;
    let ghost ch0 = *ch;
    let n0 = pick_u16(u.deposit_fee_bps, ch.deposit_fee_bps);
    record_value(changes, 0, u.deposit_fee_bps.is_some(), ch.deposit_fee_bps as u64, n0 as u64, authority, now);
    let n1 = pick_u16(u.withdrawal_fee_bps, ch.withdrawal_fee_bps);
    record_value(changes, 1, u.withdrawal_fee_bps.is_some(), ch.withdrawal_fee_bps as u64, n1 as u64, authority, now);
    ch.deposit_fee_bps = n0;
    ch.withdrawal_fee_bps = n1;
    assert(changes@ =~= c0 + rate_changes(ch0, *u, *authority, now));
}

fn apply_fee_shares(
    ch: &mut ClearingHouseState,
    u: &ConfigUpdate,
    changes: &mut Vec<ConfigChange>,
    authority: &Pubkey,
    now: i64,
)
    ensures
        *final(ch) == (ClearingHouseState {
            referral_bps: fees_after(*old(ch), *u).referral_bps,
            tier2_referral_bps: fees_after(*old(ch), *u).tier2_referral_bps,
            bonus_bps: fees_after(*old(ch), *u).bonus_bps,
            nft_reward_bps: fees_after(*old(ch), *u).nft_reward_bps,
            platform_fee_bps: fees_after(*old(ch), *u).platform_fee_bps,
            ..*old(ch)
        }),
        final(changes)@ == old(changes)@ + share_changes(*old(ch), *u, *authority, now),
{
    let ghost c0 = changes@;
    let ghost ch0 = *ch;
    let n2 = pick_u16(u.referral_bps, ch.referral_bps);
    record_value(changes, 2, u.referral_bps.is_some(), ch.referral_bps as u64, n2 as u64, authority, now);
    let n3 = pick_u16(u.tier2_referral_bps, ch.tier2_referral_bps);
    record_value(changes, 3, u.tier2_referral_bps.is_some(), ch.tier2_referral_bps as u64, n3 as u64, authority, now);
    let n4 = pick_u16(u.bonus_bps, ch.bonus_bps);
    record_value(changes, 4, u.bonus_bps.is_some(), ch.bonus_bps as u64, n4 as u64, authority, now);
    let n5 = pick_u16(u.nft_reward_bps, ch.nft_reward_bps);
    record_value(changes, 5, u.nft_reward_bps.is_some(), ch.nft_reward_bps as u64, n5 as u64, authority, now);
    let n6 = pick_u16(u.platform_fee_bps, ch.platform_fee_bps);
    record_value(changes, 6, u.platform_fee_bps.is_some(), ch.platform_fee_bps as u64, n6 as u64, authority, now);
    ch.referral_bps = n2;
    ch.tier2_referral_bps = n3;
    ch.bonus_bps = n4;
    ch.nft_reward_bps = n5;
    ch.platform_fee_bps = n6;
    assert(changes@ =~= c0 + share_changes(ch0, *u, *authority, now));
}

fn apply_key_settings(
    ch: &mut ClearingHouseState,
    u: &ConfigUpdate,
    changes: &mut Vec<ConfigChange>,
    authority: &Pubkey,
    now: i64,
)
    ensures
        *final(ch) == keys_after(*old(ch), *u),
        final(changes)@ == old(changes)@ + key_changes(*old(ch), *u, *authority, now),
{
    let ghost c0 = changes@;
    let ghost ch0 = *ch;
    let k7 = record_key(changes, 7, u.platform_wallet, &ch.platform_wallet, authority, now);
    let k8 = record_key(changes, 8, u.bonus_wallet, &ch.bonus_wallet, authority, now);
    let k9 = record_key(changes, 9, u.nft_rewarder, &ch.nft_rewarder, authority, now);
    let k10 = record_key(changes, 10, u.settler, &ch.settler, authority, now);
    let k11 = record_key(changes, 11, u.vault_lookup_table, &ch.vault_lookup_table, authority, now);
    ch.platform_wallet = k7;
    ch.bonus_wallet = k8;
    ch.nft_rewarder = k9;
    ch.settler = k10;
    ch.vault_lookup_table = k11;
    assert(changes@ =~= c0 + key_changes(ch0, *u, *authority, now));
}

fn apply_odds_settings(
    ch: &mut ClearingHouseState,
    u: &ConfigUpdate,
    changes: &mut Vec<ConfigChange>,
    authority: &Pubkey,
    now: i64,
)
    ensures
        *final(ch) == odds_after(*old(ch), *u),
        final(changes)@ == old(changes)@ + odds_changes(*old(ch), *u, *authority, now),
{
    let ghost c0 = changes@;
    let ghost ch0 = *ch;
    let n12 = pick_u16(u.min_odds_bps, ch.min_odds_bps);
    record_value(changes, 12, u.min_odds_bps.is_some(), ch.min_odds_bps as u64, n12 as u64, authority, now);
    let n13 = pick_u16(u.max_odds_bps, ch.max_odds_bps);
    record_value(changes, 13, u.max_odds_bps.is_some(), ch.max_odds_bps as u64, n13 as u64, authority, now);
    let n14: u8 = match u.odds_window_size {
        Some(v) => v,
        None => ch.odds_window_size,
    };
    record_value(changes, 14, u.odds_window_size.is_some(), ch.odds_window_size as u64, n14 as u64, authority, now);
    let n15: bool = match u.invert_odds {
        Some(v) => v,
        None => ch.invert_odds,
    };
    let prev15: u64 = if ch.invert_odds {
        1
    } else {
        0
    };
    let next15: u64 = if n15 {
        1
    } else {
        0
    };
    record_value(changes, 15, u.invert_odds.is_some(), prev15, next15, authority, now);
    ch.min_odds_bps = n12;
    ch.max_odds_bps = n13;
    ch.odds_window_size = n14;
    ch.invert_odds = n15;
    assert(changes@ =~= c0 + odds_changes(ch0, *u, *authority, now));
}

fn apply_limit_settings(
    ch: &mut ClearingHouseState,
    u: &ConfigUpdate,
    changes: &mut Vec<ConfigChange>,
    authority: &Pubkey,
    now: i64,
)
    ensures
        *final(ch) == limits_after(*old(ch), *u),
        final(changes)@ == old(changes)@ + limit_changes(*old(ch), *u, *authority, now),
{
    let ghost c0 = changes@;
    let ghost ch0 = *ch;
    let n16 = pick_u16(u.spread_to_lp_bps, ch.spread_to_lp_bps);
    record_value(changes, 16, u.spread_to_lp_bps.is_some(), ch.spread_to_lp_bps as u64, n16 as u64, authority, now);
    let n17 = pick_u16(u.max_cp_exposure_bps, ch.max_cp_exposure_bps);
    record_value(changes, 17, u.max_cp_exposure_bps.is_some(), ch.max_cp_exposure_bps as u64, n17 as u64, authority, now);
    let n18: i64 = match u.stale_bet_buffer_secs {
        Some(v) => v,
        None => ch.stale_bet_buffer_secs,
    };
    let prev18: u64 = #[verifier::truncate] (ch.stale_bet_buffer_secs as u64);
    let next18: u64 = #[verifier::truncate] (n18 as u64);
    record_value(changes, 18, u.stale_bet_buffer_secs.is_some(), prev18, next18, authority, now);
    ch.spread_to_lp_bps = n16;
    ch.max_cp_exposure_bps = n17;
    ch.stale_bet_buffer_secs = n18;
    assert(changes@ =~= c0 + limit_changes(ch0, *u, *authority, now));
}

/// Whether a given setting is out of range, the LP part checked against the
/// deposit fee in force after the fee settings.
fn check_ranges(ch: &ClearingHouseState, u: &ConfigUpdate) -> (r: bool)
    ensures
        r == config_range_error(*ch, *u),
{
    let dep_fee = pick_u16(u.deposit_fee_bps, ch.deposit_fee_bps);
    (match u.deposit_fee_bps {
        Some(v) => v > MAX_FEE_BPS,
        None => false,
    }) || (match u.withdrawal_fee_bps {
        Some(v) => v > MAX_FEE_BPS,
        None => false,
    }) || (match u.min_odds_bps {
        Some(v) => v > 10_000,
        None => false,
    }) || (match u.max_odds_bps {
        Some(v) => v > 10_000,
        None => false,
    }) || (match u.odds_window_size {
        Some(v) => !(v >= 1 && v <= 100),
        None => false,
    }) || pick_u16(u.spread_to_lp_bps, ch.spread_to_lp_bps) > dep_fee || (match u.max_cp_exposure_bps {
        Some(v) => v > 10_000,
        None => false,
    }) || (match u.stale_bet_buffer_secs {
        Some(v) => !(v >= 0 && v <= 600),
        None => false,
    })
}

/// Apply the given settings in field order, after checking each one's
/// range, then check that the wallet shares still sum to both fees less the
/// LP part. Returns
/// the reports of the changes. On an error the state is left as it was.
pub fn handler(ch: &mut ClearingHouseState, u: &ConfigUpdate, authority: &Pubkey, now: i64) -> (r:
    Result<Vec<ConfigChange>, RogueTraderError>)
    ensures
        match config_error(*old(ch), *u) {
            Some(e) => r == Err::<Vec<ConfigChange>, RogueTraderError>(e) && *final(ch) == *old(ch),
            None => r matches Ok(changes) && changes@ == config_changes(*old(ch), *u, *authority, now)
                && *final(ch) == config_after(*old(ch), *u),
        },
        r is Ok ==> final(ch).spread_to_lp_bps <= final(ch).deposit_fee_bps,
{
    let ghost ch0 = *ch;
    if check_ranges(ch, u) {
        return Err(RogueTraderError::InvalidConfig);
    }
    let mut next = *ch;
    let mut changes: Vec<ConfigChange> = Vec::new();
    apply_fee_rates(&mut next, u, &mut changes, authority, now);
    apply_fee_shares(&mut next, u, &mut changes, authority, now);
    apply_key_settings(&mut next, u, &mut changes, authority, now);
    apply_odds_settings(&mut next, u, &mut changes, authority, now);
    apply_limit_settings(&mut next, u, &mut changes, authority, now);
    assert(changes@ =~= config_changes(ch0, *u, *authority, now));
    let split_sum = checked_split_sum(
        next.referral_bps,
        next.tier2_referral_bps,
        next.bonus_bps,
        next.nft_reward_bps,
        next.platform_fee_bps,
    )?;
    let deposit_wallet_bps = next.deposit_fee_bps.saturating_sub(next.spread_to_lp_bps);
    if split_sum != deposit_wallet_bps {
        return Err(RogueTraderError::InvalidFeeSplit);
    }
    let withdrawal_wallet_bps = next.withdrawal_fee_bps.saturating_sub(next.spread_to_lp_bps);
    if split_sum != withdrawal_wallet_bps {
        return Err(RogueTraderError::InvalidWithdrawalFeeSplit);
    }
    *ch = next;
    Ok(changes)
}

} // verus!
