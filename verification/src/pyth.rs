//! Decoding of Pyth `PriceUpdateV2` account data and the staleness check.
//!
//! Layout: discriminator (8) + write_authority (32) + verification_level
//! (tag, and a signature count when partial) + price message + posted_slot (8).

use vstd::prelude::*;
use vstd::bytes::{
    spec_u32_from_le_bytes, spec_u32_to_le_bytes, spec_u64_from_le_bytes, spec_u64_to_le_bytes,
    u32_from_le_bytes, u64_from_le_bytes,
};
use vstd::slice::slice_subrange;
use crate::clock::{Clock, saturating_sub_i64, spec_saturating_sub_i64};
use crate::error::{ProgramError, RogueTraderError};
use crate::pubkey::Pubkey;

verus! {

/// The first 8 bytes of a `PriceUpdateV2` account.
pub const PRICE_UPDATE_V2_DISCRIMINATOR: [u8; 8] = [34, 241, 35, 99, 157, 126, 244, 205];

/// The discriminator as a sequence.
pub open spec fn spec_discriminator() -> Seq<u8> {
    seq![34u8, 241u8, 35u8, 99u8, 157u8, 126u8, 244u8, 205u8]
}

/// Core price data of a price update.
#[derive(Clone, Copy, Debug, PartialEq, Eq)]
pub struct PriceFeedMessage {
    pub feed_id: [u8; 32],
    pub price: i64,
    pub conf: u64,
    pub exponent: i32,
    pub publish_time: i64,
    pub prev_publish_time: i64,
    pub ema_price: i64,
    pub ema_conf: u64,
}

/// How many guardian signatures were verified.
#[derive(Clone, Copy, Debug, PartialEq, Eq, Structural)]
pub enum VerificationLevel {
    Partial { num_signatures: u8 },
    Full,
}

/// A decoded `PriceUpdateV2` account.
#[derive(Clone, Copy, Debug, PartialEq, Eq)]
pub struct PriceUpdateV2 {
    pub write_authority: Pubkey,
    pub verification_level: VerificationLevel,
    pub price_message: PriceFeedMessage,
    pub posted_slot: u64,
}

/// Offset of the price message: after the tag, and the signature count when
/// the tag is 0 (partial verification).
pub open spec fn message_offset(d: Seq<u8>) -> int {
    if d[40] == 0 { 42 } else { 41 }
}

/// Bytes a well-formed account with this verification tag occupies.
pub open spec fn price_update_len(d: Seq<u8>) -> int {
    if d.len() <= 40 {
        134
    } else {
        message_offset(d) + 92
    }
}


/// Little-endian u64 at offset `o`.
pub open spec fn le_u64_at(d: Seq<u8>, o: int) -> u64 {
    spec_u64_from_le_bytes(d.subrange(o, o + 8))
}

/// Little-endian i64 at offset `o` (two's complement).
pub open spec fn le_i64_at(d: Seq<u8>, o: int) -> i64 {
    le_u64_at(d, o) as i64
}

/// Little-endian i32 at offset `o` (two's complement).
pub open spec fn le_i32_at(d: Seq<u8>, o: int) -> i32 {
    spec_u32_from_le_bytes(d.subrange(o, o + 4)) as i32
}

/// The fields decoded from well-formed account data.
pub open spec fn decodes_to(d: Seq<u8>, u: PriceUpdateV2) -> bool {
    let o = message_offset(d);
    let m = u.price_message;
    &&& u.write_authority@ == d.subrange(8, 40)
    &&& u.verification_level == (if d[40] == 0 {
        VerificationLevel::Partial { num_signatures: d[41] }
    } else {
        VerificationLevel::Full
    })
    &&& m.feed_id@ == d.subrange(o, o + 32)
    &&& m.price == le_i64_at(d, o + 32)
    &&& m.conf == le_u64_at(d, o + 40)
    &&& m.exponent == le_i32_at(d, o + 48)
    &&& m.publish_time == le_i64_at(d, o + 52)
    &&& m.prev_publish_time == le_i64_at(d, o + 60)
    &&& m.ema_price == le_i64_at(d, o + 68)
    &&& m.ema_conf == le_u64_at(d, o + 76)
    &&& u.posted_slot == le_u64_at(d, o + 84)
}

/// Whether the data starts with the `PriceUpdateV2` discriminator.
pub open spec fn has_discriminator(d: Seq<u8>) -> bool {
    d.len() >= 8 && d.subrange(0, 8) == spec_discriminator()
}

/// Whether the data is a whole `PriceUpdateV2` account: the discriminator,
/// and every byte of an update with its verification tag.
pub open spec fn price_decodes(d: Seq<u8>) -> bool {
    has_discriminator(d) && d.len() >= price_update_len(d)
}

fn read_bytes32(data: &[u8], off: usize) -> (r: [u8; 32])
    requires
        off + 32 <= data@.len(),
    ensures
        r@ == data@.subrange(off as int, off + 32),
{
    let n = data.len();
    let mut r = [0u8; 32];
    let mut i: usize = 0;
    while i < 32
        invariant
            i <= 32,
            off + 32 <= data@.len(),
            n == data@.len(),
            r@.len() == 32,
            forall|j: int| 0 <= j < i ==> r@[j] == data@[off + j],
        decreases 32 - i,
    {
        r[i] = data[off + i];
        i = i + 1;
    }
    assert(r@ =~= data@.subrange(off as int, off + 32));
    r
}

fn read_u64(data: &[u8], off: usize) -> (r: u64)
    requires
        off + 8 <= data@.len(),
    ensures
        r == le_u64_at(data@, off as int),
{
    let n = data.len();
    let s = slice_subrange(data, off, off + 8);
    u64_from_le_bytes(s)
}

fn read_i64(data: &[u8], off: usize) -> (r: i64)
    requires
        off + 8 <= data@.len(),
    ensures
        r == le_i64_at(data@, off as int),
{
    read_u64(data, off) as i64
}

fn read_i32(data: &[u8], off: usize) -> (r: i32)
    requires
        off + 4 <= data@.len(),
    ensures
        r == le_i32_at(data@, off as int),
{
    let n = data.len();
    let s = slice_subrange(data, off, off + 4);
    #[verifier::truncate]
    (u32_from_le_bytes(s) as i32)
}

fn starts_with_discriminator(data: &[u8]) -> (r: bool)
    requires
        data@.len() >= 8,
    ensures
        r == (data@.subrange(0, 8) == spec_discriminator()),
{
    let d = PRICE_UPDATE_V2_DISCRIMINATOR;
    assert(d@ =~= spec_discriminator());
    let mut i: usize = 0;
    while i < 8
        invariant
            i <= 8,
            data@.len() >= 8,
            d@ == spec_discriminator(),
            forall|j: int| 0 <= j < i ==> data@[j] == d@[j],
        decreases 8 - i,
    {
        if data[i] != d[i] {
            assert(data@.subrange(0, 8)[i as int] != spec_discriminator()[i as int]);
            return false;
        }
        i = i + 1;
    }
    assert(data@.subrange(0, 8) =~= spec_discriminator());
    true
}

/// Little-endian bytes of an i64 (two's complement).
pub open spec fn i64_le_bytes(x: i64) -> Seq<u8> {
    spec_u64_to_le_bytes(x as u64)
}

/// Borsh bytes of a verification level: tag 0 and the signature count, or
/// tag 1.
pub open spec fn encode_verification_level(l: VerificationLevel) -> Seq<u8> {
    match l {
        VerificationLevel::Partial { num_signatures } => seq![0u8, num_signatures],
        VerificationLevel::Full => seq![1u8],
    }
}

/// Borsh bytes of a price message, fields in declaration order.
pub open spec fn encode_price_message(m: PriceFeedMessage) -> Seq<u8> {
    m.feed_id@ + i64_le_bytes(m.price) + spec_u64_to_le_bytes(m.conf) + spec_u32_to_le_bytes(
        m.exponent as u32,
    ) + i64_le_bytes(m.publish_time) + i64_le_bytes(m.prev_publish_time) + i64_le_bytes(
        m.ema_price,
    ) + spec_u64_to_le_bytes(m.ema_conf)
}

/// Account bytes of a price update: discriminator, write authority,
/// verification level, price message, posted slot.
pub open spec fn encode_price_update(u: PriceUpdateV2) -> Seq<u8> {
    spec_discriminator() + u.write_authority@ + encode_verification_level(u.verification_level)
        + encode_price_message(u.price_message) + spec_u64_to_le_bytes(u.posted_slot)
}

proof fn lemma_i64_bits(x: i64)
    ensures
        (x as u64) as i64 == x,
{
    assert((x as u64) as i64 == x) by (bit_vector);
}

proof fn lemma_i32_bits(x: i32)
    ensures
        (x as u32) as i32 == x,
{
    assert((x as u32) as i32 == x) by (bit_vector);
}

/// The fields of a price message read back from its bytes.
proof fn lemma_price_message_fields(m: PriceFeedMessage, d: Seq<u8>, o: int)
    requires
        0 <= o,
        o + 84 <= d.len(),
        d.subrange(o, o + 84) == encode_price_message(m),
    ensures
        d.subrange(o, o + 32) == m.feed_id@,
        le_i64_at(d, o + 32) == m.price,
        le_u64_at(d, o + 40) == m.conf,
        le_i32_at(d, o + 48) == m.exponent,
        le_i64_at(d, o + 52) == m.publish_time,
        le_i64_at(d, o + 60) == m.prev_publish_time,
        le_i64_at(d, o + 68) == m.ema_price,
        le_u64_at(d, o + 76) == m.ema_conf,
{
    vstd::bytes::lemma_auto_spec_u64_to_from_le_bytes();
    vstd::bytes::lemma_auto_spec_u32_to_from_le_bytes();
    let e = encode_price_message(m);
    let b_price = i64_le_bytes(m.price);
    let b_conf = spec_u64_to_le_bytes(m.conf);
    let b_expo = spec_u32_to_le_bytes(m.exponent as u32);
    let b_pub = i64_le_bytes(m.publish_time);
    let b_prev = i64_le_bytes(m.prev_publish_time);
    let b_ema = i64_le_bytes(m.ema_price);
    let b_emac = spec_u64_to_le_bytes(m.ema_conf);
    assert(m.feed_id@.len() == 32);
    assert(b_price.len() == 8 && b_conf.len() == 8 && b_expo.len() == 4);
    assert(b_pub.len() == 8 && b_prev.len() == 8 && b_ema.len() == 8 && b_emac.len() == 8);
    assert(d.subrange(o, o + 32) =~= e.subrange(0, 32));
    assert(e.subrange(0, 32) =~= m.feed_id@);
    assert(d.subrange(o + 32, o + 40) =~= e.subrange(32, 40));
    assert(e.subrange(32, 40) =~= b_price);
    assert(d.subrange(o + 40, o + 48) =~= e.subrange(40, 48));
    assert(e.subrange(40, 48) =~= b_conf);
    assert(d.subrange(o + 48, o + 52) =~= e.subrange(48, 52));
    assert(e.subrange(48, 52) =~= b_expo);
    assert(d.subrange(o + 52, o + 60) =~= e.subrange(52, 60));
    assert(e.subrange(52, 60) =~= b_pub);
    assert(d.subrange(o + 60, o + 68) =~= e.subrange(60, 68));
    assert(e.subrange(60, 68) =~= b_prev);
    assert(d.subrange(o + 68, o + 76) =~= e.subrange(68, 76));
    assert(e.subrange(68, 76) =~= b_ema);
    assert(d.subrange(o + 76, o + 84) =~= e.subrange(76, 84));
    assert(e.subrange(76, 84) =~= b_emac);
    lemma_i64_bits(m.price);
    lemma_i64_bits(m.publish_time);
    lemma_i64_bits(m.prev_publish_time);
    lemma_i64_bits(m.ema_price);
    lemma_i32_bits(m.exponent);
}

/// Decoding reads back what was encoded: the bytes of any price update,
/// followed by any further bytes, decode to that update, field by field;
/// the trailing bytes are ignored.
pub proof fn law_price_update_round_trip(u: PriceUpdateV2, tail: Seq<u8>)
    ensures
        price_decodes(encode_price_update(u) + tail),
        decodes_to(encode_price_update(u) + tail, u),
{
    vstd::bytes::lemma_auto_spec_u64_to_from_le_bytes();
    vstd::bytes::lemma_auto_spec_u32_to_from_le_bytes();
    let lv = encode_verification_level(u.verification_level);
    let msg = encode_price_message(u.price_message);
    let slot = spec_u64_to_le_bytes(u.posted_slot);
    let d = encode_price_update(u) + tail;
    let m = u.price_message;
    assert(u.write_authority@.len() == 32);
    assert(m.feed_id@.len() == 32);
    assert(msg.len() == 84);
    assert(slot.len() == 8);
    let o: int = 40 + lv.len() as int;
    assert(d.len() == o + 92 + tail.len());
    assert(d[40] == lv[0]);
    assert(lv.len() == 2 ==> d[41] == lv[1]);
    assert(o == message_offset(d));
    assert(d.subrange(0, 8) =~= spec_discriminator());
    assert(d.subrange(8, 40) =~= u.write_authority@);
    assert(d.subrange(o, o + 84) =~= msg);
    assert(d.subrange(o + 84, o + 92) =~= slot);
    lemma_price_message_fields(m, d, o);
}

impl PriceUpdateV2 {
    /// Decode a `PriceUpdateV2` from account data, checking the discriminator
    /// and that the data holds a whole update.
    pub fn try_deserialize(data: &[u8]) -> (r: Result<PriceUpdateV2, ProgramError>)
        ensures
            r is Err <==> !price_decodes(data@),
            r is Err ==> r == Err::<PriceUpdateV2, ProgramError>(ProgramError::InvalidAccountData),
            r matches Ok(u) ==> decodes_to(data@, u),
    {
        if data.len() < 8 {
            return Err(ProgramError::InvalidAccountData);
        }
        if !starts_with_discriminator(data) {
            return Err(ProgramError::InvalidAccountData);
        }
        let needed: usize = if data.len() <= 40 {
            134
        } else if data[40] == 0 {
            134
        } else {
            133
        };
        if data.len() < needed {
            return Err(ProgramError::InvalidAccountData);
        }
        let write_authority = Pubkey { bytes: read_bytes32(data, 8) };
        let mut offset: usize = 40;
        let verification_level = if data[offset] == 0 {
            offset = offset + 1;
            let num_signatures = data[offset];
            offset = offset + 1;
            VerificationLevel::Partial { num_signatures }
        } else {
            offset = offset + 1;
            VerificationLevel::Full
        };
        assert(offset as int == message_offset(data@));
        let feed_id = read_bytes32(data, offset);
        offset = offset + 32;
        let price = read_i64(data, offset);
        offset = offset + 8;
        let conf = read_u64(data, offset);
        offset = offset + 8;
        let exponent = read_i32(data, offset);
        offset = offset + 4;
        let publish_time = read_i64(data, offset);
        offset = offset + 8;
        let prev_publish_time = read_i64(data, offset);
        offset = offset + 8;
        let ema_price = read_i64(data, offset);
        offset = offset + 8;
        let ema_conf = read_u64(data, offset);
        offset = offset + 8;
        let price_message = PriceFeedMessage {
            feed_id,
            price,
            conf,
            exponent,
            publish_time,
            prev_publish_time,
            ema_price,
            ema_conf,
        };
        let posted_slot = read_u64(data, offset);
        Ok(PriceUpdateV2 { write_authority, verification_level, price_message, posted_slot })
    }

    /// Whether the price is too stale at `now`: published in the future, or
    /// more than `max_age` seconds ago.
    pub open spec fn spec_too_stale(&self, now: i64, max_age: u64) -> bool {
        let age = spec_saturating_sub_i64(now, self.price_message.publish_time);
        age < 0 || age > max_age
    }

    /// The price message, rejected when older than `max_age` seconds at the
    /// clock's time.
    pub fn get_price_no_older_than(&self, clock: &Clock, max_age: u64) -> (r: Result<
        &PriceFeedMessage,
        RogueTraderError,
    >)
        ensures
            r is Err <==> self.spec_too_stale(clock.unix_timestamp, max_age),
            r is Err ==> r == Err::<&PriceFeedMessage, RogueTraderError>(
                RogueTraderError::PythPriceTooStale,
            ),
            r matches Ok(m) ==> *m == self.price_message,
    {
        let age = saturating_sub_i64(clock.unix_timestamp, self.price_message.publish_time);
        if age < 0 || age as u64 > max_age {
            return Err(RogueTraderError::PythPriceTooStale);
        }
        Ok(&self.price_message)
    }
}

} // verus!
