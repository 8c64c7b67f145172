//! The expiration policy: how long an entry stays readable after it was stored.

use crate::clock::Timestamp;
use vstd::prelude::*;

verus! {

/// How long an entry lives, counted from the moment it was stored.
///
/// `Default` stands for one hour.
#[derive(Debug, Clone, Copy, PartialEq, Eq, Structural)]
pub enum Expiration {
    Second(u64),
    Minute(u64),
    Hour(u64),
    Default,
}

impl Expiration {
    /// The length of the policy in seconds, as a mathematical integer.
    pub open spec fn seconds(self) -> nat {
        match self {
            Expiration::Second(count) => count as nat,
            Expiration::Minute(count) => (count * 60) as nat,
            Expiration::Hour(count) => (count * 3600) as nat,
            Expiration::Default => 3600,
        }
    }

    /// How many steps separate the policy's unit from the second.
    pub open spec fn unit_rank(self) -> nat {
        match self {
            Expiration::Second(_) => 0,
            Expiration::Minute(_) => 1,
            Expiration::Hour(_) => 2,
            Expiration::Default => 3,
        }
    }

    /// The length of the policy in seconds, each unit computed from the next
    /// smaller one. The length has to fit in a `u64`.
    pub fn to_sec(&self) -> (secs: u64)
        requires
            self.seconds() <= u64::MAX,
        ensures
            secs == self.seconds(),
        decreases self.unit_rank(),
    {
        match *self {
            Expiration::Second(count) => count,
            Expiration::Minute(count) => count * Expiration::Second(60).to_sec(),
            Expiration::Hour(count) => count * Expiration::Minute(60).to_sec(),
            Expiration::Default => Expiration::Hour(1).to_sec(),
        }
    }

    /// The length of the policy in seconds, for every policy: the longest,
    /// `u64::MAX` hours, needs more than a `u64`.
    pub fn total_secs(&self) -> (secs: u128)
        ensures
            secs == self.seconds(),
    {
        match *self {
            Expiration::Second(count) => count as u128,
            Expiration::Minute(count) => count as u128 * 60,
            Expiration::Hour(count) => count as u128 * 3600,
            Expiration::Default => 3600,
        }
    }

    /// Whether an entry stored at `cached_at` is past reading at `now`: its
    /// age in whole seconds has reached the policy's length, or `now` lies
    /// before `cached_at`, so that the entry has no age.
    pub open spec fn expired(self, cached_at: Timestamp, now: Timestamp) -> bool {
        match now.elapsed_secs(cached_at) {
            Some(age) => age >= self.seconds(),
            None => true,
        }
    }

    /// Decides [`Self::expired`].
    pub fn is_expired(&self, cached_at: &Timestamp, now: &Timestamp) -> (gone: bool)
        ensures
            gone == self.expired(*cached_at, *now),
    {
        match now.secs_since(cached_at) {
            Some(age) => age >= self.total_secs(),
            None => true,
        }
    }
}

} // verus!
