//! Deposit and withdrawal fees: the split between LP holders and fee
//! wallets, the best-effort transfer of each wallet's share with its
//! rent-safety fallback, the fee wallets' checks, and the fee statistics.

use vstd::prelude::*;
use vstd::bytes::{spec_u64_from_le_bytes, spec_u64_to_le_bytes, u64_from_le_bytes, u64_to_le_bytes};
use vstd::slice::slice_subrange;
use crate::crypto::{find_program_address, program_address};
use crate::error::RogueTraderError;
use crate::pubkey::{Pubkey, zero_key};
use crate::state::clearing_house::ClearingHouseState;
use crate::state::player_state::PlayerState;

verus! {

/// Rent-exempt minimum of an empty system account at the usual rent
/// parameters, used when the rent sysvar cannot be read.
pub const DEFAULT_RENT_EXEMPT_MIN: u64 = 890_880;

/// Fee part of an amount: `fee_bps` of it.
pub open spec fn spread_of(amount: u64, fee_bps: u16) -> u64 {
    ((amount as int) * (fee_bps as int) / 10_000) as u64
}

/// Part of the fee that stays in the vault: `spread_to_lp_bps / fee_bps` of it.
pub open spec fn lp_spread_of(total_spread: u64, spread_to_lp_bps: u16, fee_bps: u16) -> u64 {
    if fee_bps > 0 {
        ((total_spread as int) * (spread_to_lp_bps as int) / (fee_bps as int)) as u64
    } else {
        0
    }
}

/// The fee of an amount and its split.
#[derive(Clone, Copy, Debug, PartialEq, Eq, Structural)]
pub struct FeeSplit {
    /// The whole fee.
    pub total_spread: u64,
    /// The part that stays in the vault for LP holders.
    pub lp_spread: u64,
    /// The part paid out to fee wallets.
    pub distribute_amount: u64,
    /// The basis points the wallet shares are taken out of.
    pub wallet_fee_bps: u16,
}

/// The fee split computed from an amount, or the overflow it runs into.
pub open spec fn spec_fee_split(amount: u64, fee_bps: u16, spread_to_lp_bps: u16) -> Option<FeeSplit> {
    let total = spread_of(amount, fee_bps);
    let lp = lp_spread_of(total, spread_to_lp_bps, fee_bps);
    if lp > total {
        None
    } else {
        Some(
            FeeSplit {
                total_spread: total,
                lp_spread: lp,
                distribute_amount: (total - lp) as u64,
                wallet_fee_bps: fee_bps.saturating_sub(spread_to_lp_bps),
            },
        )
    }
}

/// Split the fee on `amount`: `fee_bps` of it is the fee, of which
/// `spread_to_lp_bps / fee_bps` stays in the vault and the rest goes to the
/// fee wallets. Fails with `MathOverflow` when the vault's part would exceed
/// the fee.
pub fn fee_split(amount: u64, fee_bps: u16, spread_to_lp_bps: u16) -> (r: Result<
    FeeSplit,
    RogueTraderError,
>)
    ensures
        match spec_fee_split(amount, fee_bps, spread_to_lp_bps) {
            Some(s) => r == Ok::<FeeSplit, RogueTraderError>(s),
            None => r == Err::<FeeSplit, RogueTraderError>(RogueTraderError::MathOverflow),
        },
{
    assert((amount as int) * (fee_bps as int) <= u128::MAX) by (nonlinear_arith)
        requires
            amount <= u64::MAX,
            fee_bps <= u16::MAX,
    ;
    let total_spread: u64 = #[verifier::truncate] (((amount as u128) * (fee_bps as u128)
        / 10_000u128) as u64);
    let lp_spread: u64 = if fee_bps > 0 {
        assert((total_spread as int) * (spread_to_lp_bps as int) <= u128::MAX) by (nonlinear_arith)
            requires
                total_spread <= u64::MAX,
                spread_to_lp_bps <= u16::MAX,
        ;
        #[verifier::truncate]
        (((total_spread as u128) * (spread_to_lp_bps as u128) / (fee_bps as u128)) as u64)
    } else {
        0
    };
    let distribute_amount = match total_spread.checked_sub(lp_spread) {
        Some(d) => d,
        None => {
            return Err(RogueTraderError::MathOverflow);
        },
    };
    Ok(
        FeeSplit {
            total_spread,
            lp_spread,
            distribute_amount,
            wallet_fee_bps: fee_bps.saturating_sub(spread_to_lp_bps),
        },
    )
}

/// A wallet's share of the distributed fee: `share_bps / total_bps` of it.
pub open spec fn fee_share(fee: u64, share_bps: u16, total_bps: u16) -> u64 {
    ((fee as int) * (share_bps as int) / (total_bps as int)) as u64
}

/// How one wallet's share is to be paid.
#[derive(Clone, Copy, Debug, PartialEq, Eq, Structural)]
pub struct FeeTransfer {
    /// Lamports to transfer.
    pub share: u64,
    /// Send to the fallback (platform) wallet instead of the recipient.
    pub to_fallback: bool,
}

/// The transfer of one wallet's share, or none when nothing is to be paid:
/// no share, no recipient, no fee, or a share that rounds to zero. The share
/// goes to the fallback wallet instead when the recipient holds no lamports
/// and the share would leave it below the rent-exempt minimum.
pub open spec fn spec_fee_transfer(
    recipient: Seq<u8>,
    fallback: Seq<u8>,
    recipient_lamports: u64,
    rent_exempt_min: u64,
    fee: u64,
    share_bps: u16,
    total_bps: u16,
) -> Option<FeeTransfer> {
    if share_bps == 0 || recipient == zero_key() || fee == 0 || total_bps == 0 {
        None
    } else if fee_share(fee, share_bps, total_bps) == 0 {
        None
    } else {
        let share = fee_share(fee, share_bps, total_bps);
        Some(
            FeeTransfer {
                share,
                to_fallback: recipient != fallback && recipient_lamports == 0
                    && recipient_lamports.saturating_add(share) < rent_exempt_min,
            },
        )
    }
}

/// Decide the best-effort transfer of one fee wallet's share from the vault
/// (`recipient_lamports` is the recipient's balance just before it,
/// `rent_exempt_min` that of an empty account).
pub fn distribute_fee_with_fallback(
    recipient: &Pubkey,
    fallback: &Pubkey,
    recipient_lamports: u64,
    rent_exempt_min: u64,
    fee: u64,
    share_bps: u16,
    total_bps: u16,
) -> (r: Option<FeeTransfer>)
    ensures
        r == spec_fee_transfer(
            recipient@,
            fallback@,
            recipient_lamports,
            rent_exempt_min,
            fee,
            share_bps,
            total_bps,
        ),
{
    if share_bps == 0 || recipient.is_default() || fee == 0 || total_bps == 0 {
        return None;
    }
    assert((fee as int) * (share_bps as int) <= u128::MAX) by (nonlinear_arith)
        requires
            fee <= u64::MAX,
            share_bps <= u16::MAX,
    ;
    let share: u64 = #[verifier::truncate] (((fee as u128) * (share_bps as u128) / (
    total_bps as u128)) as u64);
    if share == 0 {
        return None;
    }
    let to_fallback = if recipient.key_eq(fallback) {
        false
    } else {
        let post = recipient_lamports.saturating_add(share);
        recipient_lamports == 0 && post < rent_exempt_min
    };
    Some(FeeTransfer { share, to_fallback })
}

/// What one share paid: the share and whether it went to the fallback when
/// the transfer succeeded; nothing when there was none or it failed (the fee
/// then stays in the vault).
pub fn fee_paid(transfer: Option<FeeTransfer>, succeeded: bool) -> (r: (u64, bool))
    ensures
        r == (match transfer {
            Some(t) => if succeeded {
                (t.share, t.to_fallback)
            } else {
                (0u64, false)
            },
            None => (0u64, false),
        }),
{
    match transfer {
        Some(t) => {
            if succeeded {
                (t.share, t.to_fallback)
            } else {
                (0, false)
            }
        },
        None => (0, false),
    }
}

/// What the five fee transfers paid, in order: tier-1 referral, tier-2
/// referral, bonus, NFT reward, platform.
#[derive(Clone, Copy, Debug, PartialEq, Eq, Structural)]
pub struct FeeOutcome {
    pub ref_paid: u64,
    pub ref_redirected: bool,
    pub t2_paid: u64,
    pub t2_redirected: bool,
    pub bonus_paid: u64,
    pub nft_paid: u64,
    pub plat_paid: u64,
}

/// The first fee wallet handed in that is not the configured one: the tier-1
/// and tier-2 referrer wallets must be the player's referrers (or the
/// platform wallet when the player has none), the bonus, NFT and platform
/// wallets those of the clearing house.
pub open spec fn fee_wallet_error(
    ch: ClearingHouseState,
    player: PlayerState,
    referrer: Seq<u8>,
    tier2_referrer: Seq<u8>,
    bonus_wallet: Seq<u8>,
    nft_rewarder: Seq<u8>,
    platform_wallet: Seq<u8>,
) -> bool {
    ||| !(referrer == player.referrer@ || (player.referrer@ == zero_key() && referrer
        == ch.platform_wallet@))
    ||| !(tier2_referrer == player.tier2_referrer@ || (player.tier2_referrer@ == zero_key()
        && tier2_referrer == ch.platform_wallet@))
    ||| bonus_wallet != ch.bonus_wallet@
    ||| nft_rewarder != ch.nft_rewarder@
    ||| platform_wallet != ch.platform_wallet@
}

/// Check the fee wallet accounts handed to a deposit or withdrawal.
pub fn check_fee_wallets(
    ch: &ClearingHouseState,
    player: &PlayerState,
    referrer: &Pubkey,
    tier2_referrer: &Pubkey,
    bonus_wallet: &Pubkey,
    nft_rewarder: &Pubkey,
    platform_wallet: &Pubkey,
) -> (r: Result<(), RogueTraderError>)
    ensures
        r is Err <==> fee_wallet_error(
            *ch,
            *player,
            referrer@,
            tier2_referrer@,
            bonus_wallet@,
            nft_rewarder@,
            platform_wallet@,
        ),
        r is Err ==> r == Err::<(), RogueTraderError>(RogueTraderError::InvalidFeeWallet),
{
    if !(referrer.key_eq(&player.referrer) || (player.referrer.is_default() && referrer.key_eq(
        &ch.platform_wallet,
    ))) {
        return Err(RogueTraderError::InvalidFeeWallet);
    }
    if !(tier2_referrer.key_eq(&player.tier2_referrer) || (player.tier2_referrer.is_default()
        && tier2_referrer.key_eq(&ch.platform_wallet))) {
        return Err(RogueTraderError::InvalidFeeWallet);
    }
    if !bonus_wallet.key_eq(&ch.bonus_wallet) {
        return Err(RogueTraderError::InvalidFeeWallet);
    }
    if !nft_rewarder.key_eq(&ch.nft_rewarder) {
        return Err(RogueTraderError::InvalidFeeWallet);
    }
    if !platform_wallet.key_eq(&ch.platform_wallet) {
        return Err(RogueTraderError::InvalidFeeWallet);
    }
    Ok(())
}

/// Referral fees that reached a referrer: paid, not redirected, and the
/// player has that referrer.
pub open spec fn actual_referral(paid: u64, redirected: bool, referrer: Seq<u8>) -> u64 {
    if referrer != zero_key() && !redirected {
        paid
    } else {
        0
    }
}

/// The fee statistics after the wallet shares were paid: referral totals
/// count only what reached a referrer; referral shares that went to the
/// platform count as platform fees.
pub open spec fn fee_stats_after(ch: ClearingHouseState, player: PlayerState, o: FeeOutcome) -> ClearingHouseState {
    let actual_ref = actual_referral(o.ref_paid, o.ref_redirected, player.referrer@);
    let actual_t2 = actual_referral(o.t2_paid, o.t2_redirected, player.tier2_referrer@);
    let fallback_plat = (o.ref_paid - actual_ref) + (o.t2_paid - actual_t2);
    ClearingHouseState {
        total_referral_paid: ch.total_referral_paid.saturating_add(actual_ref).saturating_add(
            actual_t2,
        ),
        total_bonus_paid: ch.total_bonus_paid.saturating_add(o.bonus_paid),
        total_nft_rewards_paid: ch.total_nft_rewards_paid.saturating_add(o.nft_paid),
        total_platform_fees_paid: ch.total_platform_fees_paid.saturating_add(
            o.plat_paid,
        ).saturating_add(fallback_plat as u64),
        ..ch
    }
}

/// Referral shares together fit in 64 bits.
pub open spec fn referral_paid_fits(o: FeeOutcome) -> bool {
    o.ref_paid + o.t2_paid <= u64::MAX
}

/// Record the paid fee shares in the clearing house's statistics.
pub fn record_fee_stats(ch: &mut ClearingHouseState, player: &PlayerState, o: &FeeOutcome)
    requires
        referral_paid_fits(*o),
    ensures
        *final(ch) == fee_stats_after(*old(ch), *player, *o),
{
    let actual_ref = if !player.referrer.is_default() && !o.ref_redirected {
        o.ref_paid
    } else {
        0
    };
    let actual_t2 = if !player.tier2_referrer.is_default() && !o.t2_redirected {
        o.t2_paid
    } else {
        0
    };
    let fallback_plat = (o.ref_paid - actual_ref) + (o.t2_paid - actual_t2);
    ch.total_referral_paid = ch.total_referral_paid.saturating_add(actual_ref).saturating_add(
        actual_t2,
    );
    ch.total_bonus_paid = ch.total_bonus_paid.saturating_add(o.bonus_paid);
    ch.total_nft_rewards_paid = ch.total_nft_rewards_paid.saturating_add(o.nft_paid);
    ch.total_platform_fees_paid = ch.total_platform_fees_paid.saturating_add(
        o.plat_paid,
    ).saturating_add(fallback_plat);
}

/// Seed prefix of referral state addresses.
pub open spec fn referral_state_seed() -> Seq<u8> {
    seq![114u8, 101u8, 102u8, 101u8, 114u8, 114u8, 97u8, 108u8, 95u8, 115u8, 116u8, 97u8, 116u8, 101u8]
}

/// Offset of `total_earnings` in a referral state account's data.
pub const EARNINGS_OFFSET: usize = 40;

/// The referral state account may be credited: it is the address derived
/// for the referrer, owned by the program, and at least 57 bytes long.
pub open spec fn referral_account_ok(
    account: Seq<u8>,
    owner: Seq<u8>,
    data_len: int,
    referrer: Seq<u8>,
    program_id: Seq<u8>,
) -> bool {
    &&& program_address(referral_state_seed(), referrer, program_id) matches Some(found)
    &&& found.0 == account
    &&& owner == program_id
    &&& data_len >= 57
}

/// Credit a referrer's earnings in its referral state account's data, best
/// effort: when the account is not the referrer's state account the data is
/// left as it is. The earnings add saturating.
pub fn update_referral_earnings(
    account: &Pubkey,
    owner: &Pubkey,
    data: &mut Vec<u8>,
    referrer_key: &Pubkey,
    program_id: &Pubkey,
    amount: u64,
)
    ensures
        if referral_account_ok(account@, owner@, old(data)@.len() as int, referrer_key@, program_id@) {
            let current = spec_u64_from_le_bytes(old(data)@.subrange(40, 48));
            final(data)@ == old(data)@.subrange(0, 40) + spec_u64_to_le_bytes(
                current.saturating_add(amount),
            ) + old(data)@.subrange(48, old(data)@.len() as int)
        } else {
            final(data)@ == old(data)@
        },
{
    let seed: [u8; 14] = [114, 101, 102, 101, 114, 114, 97, 108, 95, 115, 116, 97, 116, 101];
    assert(seed@ =~= referral_state_seed());
    let expected = match find_program_address(seed.as_slice(), referrer_key.bytes.as_slice(), program_id) {
        Some(found) => found.0,
        None => {
            return;
        },
    };
    if !account.key_eq(&expected) {
        return;
    }
    if !owner.key_eq(program_id) {
        return;
    }
    if data.len() < 57 {
        return;
    }
    let current = u64_from_le_bytes(slice_subrange(data.as_slice(), 40, 48));
    let bytes = u64_to_le_bytes(current.saturating_add(amount));
    proof {
        vstd::bytes::lemma_auto_spec_u64_to_from_le_bytes();
    }
    let ghost before = data@;
    let mut k: usize = 0;
    while k < 8
        invariant
            k <= 8,
            bytes@.len() == 8,
            before.len() >= 57,
            data@.len() == before.len(),
            forall|j: int| 0 <= j < 40 + k ==> #[trigger] data@[j] == (if j < 40 {
                before[j]
            } else {
                bytes@[j - 40]
            }),
            forall|j: int| 40 + k <= j < before.len() ==> #[trigger] data@[j] == before[j],
        decreases 8 - k,
    {
        data.set(40 + k, bytes[k]);
        k = k + 1;
    }
    assert(data@ =~= before.subrange(0, 40) + bytes@ + before.subrange(48, before.len() as int));
}

} // verus!
