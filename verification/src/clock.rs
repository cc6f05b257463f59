//! The wall clock, for stamping what the daemon logs.

use std::time::Duration;
use vstd::prelude::*;

verus! {

/// The time that has passed since the Unix epoch, by
/// `SystemTime::elapsed` of std called on `UNIX_EPOCH`; nothing where the
/// system clock is set before the epoch and the call fails.
///
/// The result is whatever the clock says, so nothing is claimed of it.
#[verifier::external_body]
fn elapsed_since_epoch() -> Option<Duration> {
    std::time::UNIX_EPOCH.elapsed().ok()
}

/// The whole seconds of `elapsed`, by `Duration::as_secs` of std.
#[verifier::external_body]
fn whole_seconds(elapsed: &Duration) -> u64 {
    elapsed.as_secs()
}

/// The nanoseconds of `elapsed` beyond its whole seconds, by
/// `Duration::subsec_nanos` of std, which documents that they stay below
/// one second.
#[verifier::external_body]
fn nanos_beyond_seconds(elapsed: &Duration) -> (nanos: u32)
    ensures
        nanos < 1_000_000_000,
{
    elapsed.subsec_nanos()
}

/// The whole microseconds in `secs` seconds and `nanos` nanoseconds.
pub open spec fn spec_micros_of(secs: u64, nanos: u32) -> int {
    secs * 1_000_000 + nanos / 1_000
}

/// The whole microseconds in `secs` seconds and `nanos` nanoseconds.
pub fn micros_of(secs: u64, nanos: u32) -> (micros: u128)
    ensures
        micros == spec_micros_of(secs, nanos),
{
    let whole: u128 = secs as u128 * 1_000_000;
    let part: u128 = (nanos / 1_000) as u128;
    whole + part
}

/// The stamp for a reading of the clock: where the clock gave the time
/// since the epoch, as seconds and nanoseconds, the whole microseconds in
/// it; where it gave none, none.
pub open spec fn spec_stamp_of(elapsed: Option<(u64, u32)>) -> Option<u128> {
    match elapsed {
        Some((secs, nanos)) => Some(spec_micros_of(secs, nanos) as u128),
        None => None,
    }
}

/// The stamp for a reading of the clock: where the clock gave the time
/// since the epoch, as seconds and nanoseconds, the whole microseconds in
/// it; where it gave none, none.
pub fn stamp_of(elapsed: Option<(u64, u32)>) -> (stamp: Option<u128>)
    ensures
        stamp == spec_stamp_of(elapsed),
        stamp is Some <==> elapsed is Some,
        elapsed matches Some((secs, nanos)) ==> stamp == Some(spec_micros_of(secs, nanos) as u128)
            && spec_micros_of(secs, nanos) <= u128::MAX,
{
    match elapsed {
        Some((secs, nanos)) => Some(micros_of(secs, nanos)),
        None => None,
    }
}

/// The time now, in whole microseconds since the Unix epoch; nothing
/// where the system clock is set before the epoch.
///
/// Whether there is a stamp is for the clock to say: the stamp is that of
/// some reading of it, with the nanoseconds below one second.
pub fn timestamp_millis() -> (stamp: Option<u128>)
    ensures
        exists|elapsed: Option<(u64, u32)>|
            {
                &&& stamp == #[trigger] spec_stamp_of(elapsed)
                &&& elapsed matches Some((_, nanos)) ==> nanos < 1_000_000_000
            },
        stamp matches Some(micros) ==> exists|secs: u64, nanos: u32|
            nanos < 1_000_000_000 && micros == #[trigger] spec_micros_of(secs, nanos),
{
    let reading: Option<(u64, u32)> = match elapsed_since_epoch() {
        Some(elapsed) => Some((whole_seconds(&elapsed), nanos_beyond_seconds(&elapsed))),
        None => None,
    };
    let stamp: Option<u128> = stamp_of(reading);
    assert(stamp == spec_stamp_of(reading));
    stamp
}

} // verus!
