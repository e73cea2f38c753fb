//! A group of bots and the price feeds they may bet on.

use vstd::prelude::*;
use crate::pubkey::{Pubkey, bytes32_eq};

verus! {

#[derive(Clone, Copy, Debug, PartialEq, Eq)]
pub struct GroupConfig {
    pub group_id: u8,
    pub name: [u8; 32],
    /// Feed ids (32-byte hashes) stored as keys; `feed_count` are in use.
    pub pyth_feeds: [Pubkey; 20],
    pub feed_count: u8,
    pub bump: u8,
    pub _reserved: [u8; 32],
}

/// Most feeds a group holds.
pub const MAX_FEEDS: usize = 20;

impl GroupConfig {
    /// Whether a feed id is among the group's first `feed_count` feeds.
    pub open spec fn spec_has_feed_id(&self, feed_id: Seq<u8>) -> bool {
        exists|i: int| 0 <= i < self.feed_count && #[trigger] self.pyth_feeds@[i]@ == feed_id
    }

    /// Check if a feed id is assigned to this group.
    pub fn has_feed_id(&self, feed_id: &[u8; 32]) -> (r: bool)
        requires
            self.feed_count <= 20,
        ensures
            r == self.spec_has_feed_id(feed_id@),
    {
        let n = self.feed_count as usize;
        let mut i: usize = 0;
        while i < n
            invariant
                n == self.feed_count,
                n <= 20,
                i <= n,
                self.pyth_feeds@.len() == 20,
                forall|j: int| 0 <= j < i ==> self.pyth_feeds@[j]@ != feed_id@,
            decreases n - i,
        {
            if bytes32_eq(&self.pyth_feeds[i].bytes, feed_id) {
                assert(self.pyth_feeds@[i as int]@ == feed_id@);
                return true;
            }
            i = i + 1;
        }
        false
    }
}

} // verus!
