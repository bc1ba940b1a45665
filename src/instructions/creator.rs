use crate::address::Address;
use vstd::prelude::*;

verus! {

/// A royalty recipient as listed in a token's metadata.
#[derive(Clone, Copy, Debug)]
pub struct Creator {
    pub address: Address,
    pub verified: bool,
    pub share: u8,
}

impl Creator {
    /// Whether the creator is `address`, marked `verified`, with `share`.
    pub open spec fn is(self, address: Seq<u8>, verified: bool, share: u8) -> bool {
        self.address@ == address && self.verified == verified && self.share == share
    }
}

} // verus!
