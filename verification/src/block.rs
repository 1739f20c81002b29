//! What the metrics read of a block.

use vstd::prelude::*;

verus! {

/// A block as far as the metrics look at it: the timestamp of its header and
/// the list of its transactions. The library never looks inside a
/// transaction, so their type is the caller's.
#[derive(Clone, Debug, PartialEq, Eq)]
pub struct Block<T> {
    /// The header's timestamp, in seconds since the epoch.
    pub time: u32,
    /// The transactions, in the block's order.
    pub txdata: Vec<T>,
}

impl<T> Block<T> {
    /// The number of transactions in the block.
    pub open spec fn transactions(self) -> nat {
        self.txdata@.len()
    }
}

} // verus!
