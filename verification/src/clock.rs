//! Wall-clock time and the deadlines measured against it.

use vstd::prelude::*;

verus! {

/// A point in time of the system clock, opaque to the proofs.
#[verifier::external_type_specification]
#[verifier::external_body]
pub struct ExSystemTime(std::time::SystemTime);

/// The error of a clock reading that lies before the unix epoch.
#[verifier::external_type_specification]
#[verifier::external_body]
pub struct ExSystemTimeError(std::time::SystemTimeError);

/// Reads the system clock with `SystemTime::now`. Nothing is promised of the
/// reading: it depends on the moment of the call and on the machine.
#[verifier::external_body]
fn clock_now() -> std::time::SystemTime {
    std::time::SystemTime::now()
}

/// The time from the unix epoch to `t`, by `SystemTime::duration_since`; an
/// error where `t` lies before the epoch. Which of the two comes back depends
/// on the clock reading, so nothing is promised of it.
#[verifier::external_body]
fn since_epoch(t: &std::time::SystemTime) -> Result<
    std::time::Duration,
    std::time::SystemTimeError,
> {
    t.duration_since(std::time::UNIX_EPOCH)
}

/// The whole seconds of a duration, by `Duration::as_secs`. The duration is
/// opaque here, so no clause ties the number to it.
#[verifier::external_body]
fn whole_secs(d: &std::time::Duration) -> u64 {
    d.as_secs()
}

/// The nanoseconds of a duration beyond its whole seconds, by
/// `Duration::subsec_nanos`, which is always less than one billion.
#[verifier::external_body]
fn subsec_nanos(d: &std::time::Duration) -> (n: u32)
    ensures
        n < 1_000_000_000,
{
    d.subsec_nanos()
}

/// Nanoseconds in a second.
pub const NANOS_PER_SEC: u128 = 1_000_000_000;

/// A clock reading taken by plain values: the whole seconds and the further
/// nanoseconds since the unix epoch, or nothing for a clock set before the
/// epoch.
pub type ClockReading = Option<(u64, u32)>;

/// Whether a reading's nanoseconds part is below one second.
pub open spec fn is_reading(reading: ClockReading) -> bool {
    match reading {
        Some((_, n)) => n < NANOS_PER_SEC,
        None => true,
    }
}

/// The unix time in whole seconds of a reading; 0 before the epoch.
pub open spec fn secs_of_reading(reading: ClockReading) -> u64 {
    match reading {
        Some((s, _)) => s,
        None => 0,
    }
}

/// The unix time in whole nanoseconds of a reading; 0 before the epoch.
pub open spec fn nanos_of_reading(reading: ClockReading) -> u128 {
    match reading {
        Some((s, n)) => (s * NANOS_PER_SEC + n) as u128,
        None => 0,
    }
}

/// Reads the system clock against the unix epoch: its whole seconds and
/// further nanoseconds since the epoch, or nothing where it reads a time
/// before the epoch. Which reading comes back depends on the moment of the
/// call.
pub fn clock_reading() -> (reading: ClockReading)
    ensures
        is_reading(reading),
{
    let t = clock_now();
    match since_epoch(&t) {
        Ok(d) => Some((whole_secs(&d), subsec_nanos(&d))),
        Err(_) => None,
    }
}

/// The unix time in whole seconds of a reading; 0 for a clock before the
/// epoch.
pub fn unix_secs_of(reading: ClockReading) -> (secs: u64)
    ensures
        secs == secs_of_reading(reading),
{
    match reading {
        Some((s, _)) => s,
        None => 0,
    }
}

/// The unix time in whole nanoseconds of a reading; 0 for a clock before
/// the epoch.
pub fn unix_nanos_of(reading: ClockReading) -> (nanos: u128)
    ensures
        nanos == nanos_of_reading(reading),
{
    match reading {
        Some((s, n)) => {
            assert(s * NANOS_PER_SEC + n <= u128::MAX) by (nonlinear_arith)
                requires
                    s <= u64::MAX,
                    n <= u32::MAX,
                    NANOS_PER_SEC == 1_000_000_000,
            ;
            (s as u128) * NANOS_PER_SEC + (n as u128)
        },
        None => 0,
    }
}

/// Seconds and nanoseconds of one reading agree: the nanoseconds, in whole
/// seconds, are the seconds; both are 0 before the epoch.
pub proof fn nanos_agree_with_secs(reading: ClockReading)
    requires
        is_reading(reading),
    ensures
        nanos_of_reading(reading) / NANOS_PER_SEC == secs_of_reading(reading) as u128,
{
    match reading {
        Some((s, n)) => {
            assert((s * NANOS_PER_SEC + n) / (NANOS_PER_SEC as int) == s) by (nonlinear_arith)
                requires
                    0 <= n < NANOS_PER_SEC,
                    NANOS_PER_SEC == 1_000_000_000,
            ;
            assert(s * NANOS_PER_SEC + n <= u128::MAX) by (nonlinear_arith)
                requires
                    s <= u64::MAX,
                    n <= u32::MAX,
                    NANOS_PER_SEC == 1_000_000_000,
            ;
        },
        None => {},
    }
}

/// The current unix time in whole seconds; 0 where the clock reads a time
/// before the epoch.
pub fn now_unix() -> u64 {
    unix_secs_of(clock_reading())
}

/// The current unix time in whole nanoseconds; 0 where the clock reads a
/// time before the epoch.
pub fn now_unix_nanos() -> u128 {
    unix_nanos_of(clock_reading())
}

/// The deadline `secs` seconds after `now`.
pub fn deadline_after(now: u64, secs: u64) -> (deadline: u64)
    requires
        now + secs <= u64::MAX,
    ensures
        deadline == now + secs,
{
    now + secs
}

/// How many seconds are left until `deadline` at time `now`: none once the
/// deadline has come.
pub fn seconds_left(deadline: u64, now: u64) -> (left: Option<u64>)
    ensures
        deadline <= now ==> left is None,
        now < deadline ==> left == Some((deadline - now) as u64),
{
    if deadline <= now {
        None
    } else {
        Some(deadline - now)
    }
}

} // verus!
