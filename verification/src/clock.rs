//! Instants, and the one place where the system clock is read.
//!
//! A [`Timestamp`] is a point on the time line, measured in nanoseconds from
//! the Unix epoch. The cache decides over these values alone, so that every
//! decision can be stated, and replayed, for a chosen instant.

use std::time::{Duration, SystemTimeError, UNIX_EPOCH};
use vstd::prelude::*;

verus! {

/// Nanoseconds in a second.
pub const NANOS_PER_SEC: u32 = 1_000_000_000;

/// A point in time: a distance from the Unix epoch and the side on which it
/// lies.
///
/// Its view is the signed number of nanoseconds from the epoch to the
/// instant.
#[derive(Debug, Clone, Copy)]
pub struct Timestamp {
    before_epoch: bool,
    secs: u64,
    subsec_nanos: u32,
}

impl View for Timestamp {
    type V = int;

    closed spec fn view(&self) -> int {
        let distance = self.secs * 1_000_000_000 + self.subsec_nanos;
        if self.before_epoch {
            -distance
        } else {
            distance
        }
    }
}

impl Timestamp {
    /// The instant `secs` seconds and `subsec_nanos` nanoseconds after the
    /// Unix epoch.
    pub fn new(secs: u64, subsec_nanos: u32) -> (at: Timestamp)
        ensures
            at@ == secs * 1_000_000_000 + subsec_nanos,
    {
        Timestamp { before_epoch: false, secs, subsec_nanos }
    }

    /// The instant `secs` seconds and `subsec_nanos` nanoseconds before the
    /// Unix epoch.
    pub fn before_epoch(secs: u64, subsec_nanos: u32) -> (at: Timestamp)
        ensures
            at@ == -(secs * 1_000_000_000 + subsec_nanos),
    {
        Timestamp { before_epoch: true, secs, subsec_nanos }
    }

    /// The whole seconds that lie between `earlier` and `self`, or `None`
    /// where `self` is the earlier of the two.
    pub open spec fn elapsed_secs(self, earlier: Timestamp) -> Option<nat> {
        if self@ >= earlier@ {
            Some(((self@ - earlier@) / 1_000_000_000) as nat)
        } else {
            None
        }
    }

    /// The view, computed.
    fn offset_nanos(&self) -> (offset: i128)
        ensures
            offset == self@,
    {
        let distance: i128 = self.secs as i128 * 1_000_000_000 + self.subsec_nanos as i128;
        if self.before_epoch {
            -distance
        } else {
            distance
        }
    }

    /// The whole seconds from `earlier` to `self`, rounded down, or `None`
    /// where `self` lies before `earlier`. Two instants can lie further apart
    /// than a `u64` counts seconds, hence the wider result.
    pub fn secs_since(&self, earlier: &Timestamp) -> (elapsed: Option<u128>)
        ensures
            match elapsed {
                Some(secs) => self.elapsed_secs(*earlier) == Some(secs as nat),
                None => self.elapsed_secs(*earlier) is None,
            },
    {
        let span: i128 = self.offset_nanos() - earlier.offset_nanos();
        if span < 0 {
            None
        } else {
            Some((span / 1_000_000_000) as u128)
        }
    }

    /// The present instant, as the system clock gives it. Nothing is known
    /// of it beforehand: a clock may be set to any time, also to one before
    /// the epoch.
    pub fn now() -> Timestamp {
        match since_unix_epoch() {
            Ok(span) => Timestamp {
                before_epoch: false,
                secs: whole_secs(&span),
                subsec_nanos: subsec_nanos(&span),
            },
            Err(error) => {
                let span = error_span(&error);
                Timestamp {
                    before_epoch: true,
                    secs: whole_secs(&span),
                    subsec_nanos: subsec_nanos(&span),
                }
            },
        }
    }
}

/// `std::time::SystemTimeError`, the error that std returns where the second
/// of two system times lies before the first. It is carried from the clock to
/// [`error_span`] and not looked into.
#[verifier::external_type_specification]
#[verifier::external_body]
pub struct ExSystemTimeError(SystemTimeError);

/// Calls `std::time::SystemTime::elapsed` on `std::time::UNIX_EPOCH`: the
/// time from the epoch to the system clock's present reading, or the error
/// where the clock reads a time before the epoch. Unverified, and nothing is
/// claimed of the result.
#[verifier::external_body]
fn since_unix_epoch() -> Result<Duration, SystemTimeError> {
    UNIX_EPOCH.elapsed()
}

/// Calls `std::time::SystemTimeError::duration`: how far the second time lay
/// before the first. Unverified, and nothing is claimed of the result.
#[verifier::external_body]
fn error_span(error: &SystemTimeError) -> Duration {
    error.duration()
}

/// Calls `std::time::Duration::as_secs`: the whole seconds of `span`.
/// Unverified, and nothing is claimed of the result.
#[verifier::external_body]
fn whole_secs(span: &Duration) -> u64 {
    span.as_secs()
}

/// Calls `std::time::Duration::subsec_nanos`: the part of `span` below one
/// second, in nanoseconds. Unverified, and nothing is claimed of the result.
#[verifier::external_body]
fn subsec_nanos(span: &Duration) -> u32 {
    span.subsec_nanos()
}

} // verus!
