//! The time of a request: the epoch and the wall clock, read once.

use vstd::prelude::*;

verus! {

/// The epoch and the Unix time at which a request is served.
#[derive(Clone, Copy, Debug, PartialEq, Eq)]
pub struct SolanaClock {
    pub epoch: u64,
    pub unix_timestamp: i64,
}

impl SolanaClock {
    pub fn new(epoch: u64, unix_timestamp: i64) -> (r: Self)
        ensures
            r.epoch == epoch,
            r.unix_timestamp == unix_timestamp,
    {
        SolanaClock { epoch, unix_timestamp }
    }

    pub fn epoch(&self) -> (r: u64)
        ensures
            r == self.epoch,
    {
        self.epoch
    }

    pub fn unix_timestamp(&self) -> (r: i64)
        ensures
            r == self.unix_timestamp,
    {
        self.unix_timestamp
    }
}

} // verus!
