//! When a cached catalog is due for a refresh.
//!
//! The host reads the clock and the cache file's modification time and
//! reports what it found as a [`CacheStamp`]; the rule that turns the
//! stamp and a threshold into a decision is here.

use crate::client::FuelClient;
use vstd::prelude::*;

verus! {

/// A length of time: whole seconds and a further count of nanoseconds.
#[derive(Clone, Copy, Debug, PartialEq, Eq)]
pub struct TimeSpan {
    pub secs: u64,
    pub nanos: u32,
}

impl TimeSpan {
    /// The whole length in nanoseconds.
    pub open spec fn total_nanos(self) -> nat {
        self.secs as nat * 1_000_000_000 + self.nanos as nat
    }

    /// Whether this span is strictly longer than `other`.
    pub fn exceeds(&self, other: &TimeSpan) -> (longer: bool)
        ensures
            longer == (self.total_nanos() > other.total_nanos()),
    {
        let mine: u128 = self.secs as u128 * 1_000_000_000 + self.nanos as u128;
        let theirs: u128 = other.secs as u128 * 1_000_000_000 + other.nanos as u128;
        mine > theirs
    }
}

/// What the host found when it asked how old the cache file is.
#[derive(Clone, Copy, Debug, PartialEq, Eq)]
pub enum CacheStamp {
    /// There is nothing to date: no file, or no modification time to be had.
    Missing,
    /// The file is dated later than the clock reading, so it has no age.
    Ahead,
    /// The file was last written this long before the clock reading.
    Aged(TimeSpan),
}

/// The staleness rule.
///
/// Without a stamp a refresh is always due. With one, a refresh is due
/// only when a threshold is given and the cache is strictly older than
/// it: a missing threshold trusts any cache that exists, however old, and
/// a cache dated ahead of the clock is never older than anything.
pub open spec fn refresh_due(stamp: CacheStamp, threshold: Option<TimeSpan>) -> bool {
    match stamp {
        CacheStamp::Missing => true,
        CacheStamp::Ahead => false,
        CacheStamp::Aged(age) => match threshold {
            Some(limit) => age.total_nanos() > limit.total_nanos(),
            None => false,
        },
    }
}

impl FuelClient {
    /// The stamp that counts for this client: a client without a cache
    /// location has no cache, whatever was observed.
    pub open spec fn cache_stamp(&self, observed: CacheStamp) -> CacheStamp {
        if self.cache_path is None {
            CacheStamp::Missing
        } else {
            observed
        }
    }

    /// Decides whether the catalog should be fetched anew, given what the
    /// host observed of the cache file at this client's cache location.
    ///
    /// Without a threshold the answer is yes only where there is no cache;
    /// with one, also where the cache is older than the threshold.
    pub fn should_update_cache(&self, observed: CacheStamp, threshold: &Option<TimeSpan>) -> (due:
        bool)
        ensures
            due == refresh_due(self.cache_stamp(observed), *threshold),
    {
        if self.cache_path.is_none() {
            return true;
        }
        match observed {
            CacheStamp::Missing => true,
            CacheStamp::Ahead => false,
            CacheStamp::Aged(age) => match threshold {
                Some(limit) => age.exceeds(limit),
                None => false,
            },
        }
    }
}

/// Where nothing is cached a refresh is due, whatever the threshold.
pub proof fn missing_cache_is_always_due(threshold: Option<TimeSpan>)
    ensures
        refresh_due(CacheStamp::Missing, threshold),
{
}

/// Without a threshold, a cache that exists is never due.
pub proof fn no_threshold_trusts_any_cache(stamp: CacheStamp)
    requires
        stamp != CacheStamp::Missing,
    ensures
        !refresh_due(stamp, None),
{
}

/// With a threshold, a cache of a given age is due exactly when the age
/// is strictly greater.
pub proof fn threshold_compares_age(age: TimeSpan, limit: TimeSpan)
    ensures
        refresh_due(CacheStamp::Aged(age), Some(limit)) == (age.total_nanos()
            > limit.total_nanos()),
{
}

} // verus!
