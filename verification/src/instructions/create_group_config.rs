//! Creating a group and assigning its price feeds.

use vstd::prelude::*;
use crate::error::RogueTraderError;
use crate::events::GroupConfigCreated;
use crate::pubkey::{Pubkey, zero_key};
use crate::state::group_config::{GroupConfig, MAX_FEEDS};

verus! {

/// The 20 feed slots holding `feeds` first and zero keys after.
pub open spec fn feeds_filled(slots: Seq<Pubkey>, feeds: Seq<Pubkey>) -> bool {
    &&& slots.len() == 20
    &&& forall|i: int| 0 <= i < feeds.len() ==> #[trigger] slots[i] == feeds[i]
    &&& forall|i: int| feeds.len() <= i < 20 ==> #[trigger] slots[i]@ == zero_key()
}

/// The 20 feed slots filled with `feeds` (at most 20) and zero keys after.
pub fn fill_feeds(feeds: &Vec<Pubkey>) -> (r: [Pubkey; 20])
    requires
        feeds@.len() <= 20,
    ensures
        feeds_filled(r@, feeds@),
{
    let mut slots: [Pubkey; 20] = [Pubkey::default(); 20];
    let mut i: usize = 0;
    while i < feeds.len()
        invariant
            feeds@.len() <= 20,
            i <= feeds@.len(),
            slots@.len() == 20,
            forall|j: int| 0 <= j < i ==> #[trigger] slots@[j] == feeds@[j],
            forall|j: int| i <= j < 20 ==> #[trigger] slots@[j]@ == zero_key(),
        decreases feeds@.len() - i,
    {
        slots[i] = feeds[i];
        i = i + 1;
    }
    slots
}

/// Create group `group_id` (1..=5) with at most 20 feeds.
pub fn handler(group_id: u8, name: [u8; 32], pyth_feeds: &Vec<Pubkey>, bump: u8, now: i64) -> (r:
    Result<(GroupConfig, GroupConfigCreated), RogueTraderError>)
    ensures
        !(1 <= group_id <= 5) ==> r == Err::<(GroupConfig, GroupConfigCreated), RogueTraderError>(
            RogueTraderError::InvalidGroupId,
        ),
        1 <= group_id <= 5 && pyth_feeds@.len() > MAX_FEEDS ==> r == Err::<
            (GroupConfig, GroupConfigCreated),
            RogueTraderError,
        >(RogueTraderError::TooManyFeeds),
        1 <= group_id <= 5 && pyth_feeds@.len() <= MAX_FEEDS ==> (r matches Ok(res) && {
            let gc = res.0;
            &&& gc.group_id == group_id
            &&& gc.name == name
            &&& feeds_filled(gc.pyth_feeds@, pyth_feeds@)
            &&& gc.feed_count == pyth_feeds@.len()
            &&& gc.bump == bump
            &&& gc._reserved@ == Seq::new(32, |i: int| 0u8)
            &&& res.1 == (GroupConfigCreated {
                group_id,
                name,
                feed_count: gc.feed_count,
                timestamp: now,
            })
        }),
{
    if !(group_id >= 1 && group_id <= 5) {
        return Err(RogueTraderError::InvalidGroupId);
    }
    if pyth_feeds.len() > MAX_FEEDS {
        return Err(RogueTraderError::TooManyFeeds);
    }
    let gc = GroupConfig {
        group_id,
        name,
        pyth_feeds: fill_feeds(pyth_feeds),
        feed_count: pyth_feeds.len() as u8,
        bump,
        _reserved: [0u8; 32],
    };
    assert(gc._reserved@ =~= Seq::new(32, |i: int| 0u8));
    let event = GroupConfigCreated { group_id, name, feed_count: gc.feed_count, timestamp: now };
    Ok((gc, event))
}

} // verus!
