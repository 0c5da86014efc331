//! Wall-clock time as plain values.

use std::time::{Duration, SystemTime, UNIX_EPOCH};
use vstd::prelude::*;

verus! {

/// A point in time as seconds and nanoseconds since the Unix epoch.
#[derive(Debug, Clone, Copy, PartialEq, Eq, Structural)]
pub struct UnixTime {
    /// Whole seconds since 1970-01-01T00:00:00Z.
    pub secs: u64,
    /// Nanoseconds past `secs`, below one billion.
    pub nanos: u32,
}

impl UnixTime {
    /// The time as whole Unix seconds, truncated to `i64` as `as` does.
    pub open spec fn spec_unix_secs(self) -> i64 {
        self.secs as i64
    }

    /// The time as whole Unix seconds.
    pub fn unix_secs(&self) -> (r: i64)
        ensures
            r == self.spec_unix_secs(),
    {
        self.secs as i64
    }
}

#[verifier::external_type_specification]
#[verifier::external_body]
pub struct ExSystemTime(SystemTime);

/// Reads the machine's clock (`SystemTime::now`). Nothing is stated of the
/// value: it depends on the machine.
#[verifier::external_body]
fn system_now() -> SystemTime {
    SystemTime::now()
}

/// The time elapsed from the Unix epoch to `t`
/// (`SystemTime::duration_since(UNIX_EPOCH)`), or none for a time before
/// the epoch. Nothing is stated of the duration: `t` is opaque here.
#[verifier::external_body]
fn since_unix_epoch(t: &SystemTime) -> Option<Duration> {
    t.duration_since(UNIX_EPOCH).ok()
}

/// The whole seconds of a duration (`Duration::as_secs`).
pub uninterp spec fn duration_whole_secs(d: Duration) -> u64;

/// The nanoseconds past the whole seconds of a duration
/// (`Duration::subsec_nanos`).
pub uninterp spec fn duration_subsec_nanos(d: Duration) -> u32;

/// The whole seconds of a duration (`Duration::as_secs`).
#[verifier::external_body]
pub(crate) fn whole_secs(d: &Duration) -> (r: u64)
    ensures
        r == duration_whole_secs(*d),
{
    d.as_secs()
}

/// The nanoseconds past the whole seconds of a duration
/// (`Duration::subsec_nanos`), which its documentation bounds below one
/// billion.
#[verifier::external_body]
pub(crate) fn subsec_nanos(d: &Duration) -> (r: u32)
    ensures
        r == duration_subsec_nanos(*d),
        r < 1_000_000_000,
{
    d.subsec_nanos()
}

/// The current wall-clock time, measured from the Unix epoch. A clock set
/// before the epoch reads as the epoch itself.
///
/// Nothing is stated of the value beyond the nanosecond range: it depends on
/// the machine's clock.
pub fn now() -> (t: UnixTime)
    ensures
        t.nanos < 1_000_000_000,
{
    let clock = system_now();
    match since_unix_epoch(&clock) {
        Some(d) => UnixTime { secs: whole_secs(&d), nanos: subsec_nanos(&d) },
        None => UnixTime { secs: 0, nanos: 0 },
    }
}

} // verus!
