use vstd::prelude::*;

use crate::id::ToU64;

verus! {

/// A source of the current time in milliseconds since some epoch, such as a
/// shared monotonic clock or a fixed value in tests.
pub trait TimeSource<T> {
    /// How many milliseconds one tick of this clock lasts.
    const GRANULARITY_MILLIS: u64 = 1;

    /// Returns the current time in milliseconds since the epoch.
    fn current_millis(&self) -> T;
}

/// How long to wait, in milliseconds, when a generator asks to wait
/// `yield_for` ticks of a clock whose ticks last `granularity_millis`: the
/// product, saturating at `u64::MAX`.
pub fn backoff_millis<Ty: ToU64>(yield_for: Ty, granularity_millis: u64) -> (r: u64)
    ensures
        r == (if yield_for.spec_to_u64() * granularity_millis <= u64::MAX {
            (yield_for.spec_to_u64() * granularity_millis) as u64
        } else {
            u64::MAX
        }),
{
    match yield_for.to_u64().checked_mul(granularity_millis) {
        Some(v) => v,
        None => u64::MAX,
    }
}

/// The wall-clock time of the standard library.
#[verifier::external_type_specification]
#[verifier::external_body]
pub struct ExSystemTime(std::time::SystemTime);

/// The error of a time that lies before the one it is measured from.
#[verifier::external_type_specification]
#[verifier::external_body]
pub struct ExSystemTimeError(std::time::SystemTimeError);

/// What `SystemTime::duration_since(UNIX_EPOCH)` gives for `t`: the
/// duration since the epoch, or `None` where it reports an error.
pub uninterp spec fn spec_duration_since_epoch(t: std::time::SystemTime) -> Option<
    core::time::Duration,
>;

/// What `Duration::as_millis` gives for `d`: its whole milliseconds.
pub uninterp spec fn spec_duration_millis(d: core::time::Duration) -> u128;

/// The milliseconds from the Unix epoch to `t`, or zero for a time before
/// the epoch.
pub open spec fn spec_unix_millis(t: std::time::SystemTime) -> u128 {
    match spec_duration_since_epoch(t) {
        Some(d) => spec_duration_millis(d),
        None => 0,
    }
}

/// How long after the Unix epoch `t` lies, with
/// `SystemTime::duration_since(UNIX_EPOCH)`; an error for a time before the
/// epoch. The result depends on `t` alone and is named
/// `spec_duration_since_epoch`.
#[verifier::external_body]
fn duration_since_unix_epoch(t: std::time::SystemTime) -> (r: Result<
    core::time::Duration,
    std::time::SystemTimeError,
>)
    ensures
        match r {
            Ok(d) => spec_duration_since_epoch(t) == Some(d),
            Err(_) => spec_duration_since_epoch(t) is None,
        },
{
    t.duration_since(std::time::UNIX_EPOCH)
}

/// The whole milliseconds in `d`, with `Duration::as_millis`; the result
/// depends on `d` alone and is named `spec_duration_millis`.
#[verifier::external_body]
fn duration_as_millis(d: core::time::Duration) -> (r: u128)
    ensures
        r == spec_duration_millis(d),
{
    d.as_millis()
}

/// The milliseconds from the Unix epoch to `t`, or zero for a time before
/// the epoch.
pub fn unix_millis(t: std::time::SystemTime) -> (r: u128)
    ensures
        r == spec_unix_millis(t),
        spec_duration_since_epoch(t) matches Some(d) ==> r == spec_duration_millis(d),
        spec_duration_since_epoch(t) is None ==> r == 0,
{
    match duration_since_unix_epoch(t) {
        Ok(d) => duration_as_millis(d),
        Err(_) => 0,
    }
}

/// The millisecond count of a wall-clock time is the whole milliseconds of
/// its duration since the Unix epoch, in full; a time before the epoch counts
/// zero.
pub proof fn lemma_unix_millis_is_duration_millis(t: std::time::SystemTime)
    ensures
        spec_duration_since_epoch(t) matches Some(d) ==> spec_unix_millis(t) == spec_duration_millis(d),
        spec_duration_since_epoch(t) is None ==> spec_unix_millis(t) == 0,
{
}

} // verus!
