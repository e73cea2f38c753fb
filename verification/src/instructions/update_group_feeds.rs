//! Replacing a group's price feeds.

use vstd::prelude::*;
use crate::error::RogueTraderError;
use crate::instructions::create_group_config::{feeds_filled, fill_feeds};
use crate::pubkey::Pubkey;
use crate::state::group_config::{GroupConfig, MAX_FEEDS};

verus! {

/// Replace the group's feeds with `pyth_feeds` (at most 20, and exactly
/// `feed_count` of them).
pub fn handler(gc: &mut GroupConfig, pyth_feeds: &Vec<Pubkey>, feed_count: u8) -> (r: Result<
    (),
    RogueTraderError,
>)
    ensures
        pyth_feeds@.len() > MAX_FEEDS ==> r == Err::<(), RogueTraderError>(
            RogueTraderError::TooManyFeeds,
        ) && *final(gc) == *old(gc),
        pyth_feeds@.len() <= MAX_FEEDS && feed_count != pyth_feeds@.len() ==> r == Err::<
            (),
            RogueTraderError,
        >(RogueTraderError::InvalidConfig) && *final(gc) == *old(gc),
        pyth_feeds@.len() <= MAX_FEEDS && feed_count == pyth_feeds@.len() ==> {
            &&& r is Ok
            &&& feeds_filled(final(gc).pyth_feeds@, pyth_feeds@)
            &&& *final(gc) == (GroupConfig {
                pyth_feeds: final(gc).pyth_feeds,
                feed_count,
                ..*old(gc)
            })
        },
{
    if pyth_feeds.len() > MAX_FEEDS {
        return Err(RogueTraderError::TooManyFeeds);
    }
    if feed_count as usize != pyth_feeds.len() {
        return Err(RogueTraderError::InvalidConfig);
    }
    gc.pyth_feeds = fill_feeds(pyth_feeds);
    gc.feed_count = feed_count;
    Ok(())
}

} // verus!
