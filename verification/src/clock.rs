//! Unix time in whole seconds.
use vstd::prelude::*;

verus! {

/// `std::time::SystemTime`.
#[verifier::external_type_specification]
#[verifier::external_body]
pub struct ExSystemTime(std::time::SystemTime);

/// `std::time::SystemTimeError`.
#[verifier::external_type_specification]
#[verifier::external_body]
pub struct ExSystemTimeError(std::time::SystemTimeError);

/// `SystemTime::now`: what the machine's clock shows. Nothing is said of it.
pub assume_specification[ std::time::SystemTime::now ]() -> std::time::SystemTime
;

/// The whole seconds of a duration.
pub uninterp spec fn whole_seconds(d: std::time::Duration) -> u64;

/// The whole seconds between the Unix epoch and `t`, if `t` is not before it.
pub uninterp spec fn epoch_seconds(t: std::time::SystemTime) -> Option<u64>;

/// `Duration::as_secs`: the whole seconds of the duration.
pub assume_specification[ std::time::Duration::as_secs ](d: &std::time::Duration) -> (r: u64)
    ensures
        r == whole_seconds(*d),
;

/// `SystemTime::duration_since` with the Unix epoch as the earlier time: the
/// duration between the two, or an error if the time is before the epoch. It
/// depends on the time alone.
#[verifier::external_body]
fn since_unix_epoch(t: std::time::SystemTime) -> (r: Result<
    std::time::Duration,
    std::time::SystemTimeError,
>)
    ensures
        match r {
            Ok(d) => epoch_seconds(t) == Some(whole_seconds(d)),
            Err(_) => epoch_seconds(t) is None,
        },
{
    t.duration_since(std::time::UNIX_EPOCH)
}

/// The two's-complement reading of 64 bits.
pub open spec fn signed_64(bits: u64) -> int {
    if bits <= i64::MAX {
        bits as int
    } else {
        bits - 0x1_0000_0000_0000_0000
    }
}

/// The time stamp for a clock that stands `elapsed` whole seconds after the
/// Unix epoch, or before it (`None`).
pub open spec fn stamp(elapsed: Option<u64>) -> int {
    match elapsed {
        Some(secs) => signed_64(secs),
        None => 0,
    }
}

/// Turns the seconds since the Unix epoch into a time stamp. A clock that is
/// set before the epoch counts as standing at it.
pub fn unix_stamp(elapsed: Option<u64>) -> (r: i64)
    ensures
        r == stamp(elapsed),
{
    match elapsed {
        Some(secs) => {
            assert(secs as i64 == (if secs <= 0x7fff_ffff_ffff_ffff {
                secs as int
            } else {
                secs - 0x1_0000_0000_0000_0000
            })) by (bit_vector);
            secs as i64
        },
        None => 0,
    }
}

/// `now` is the time stamp of a reading of the clock.
pub open spec fn is_reading(now: i64) -> bool {
    exists|t: std::time::SystemTime| now == stamp(#[trigger] epoch_seconds(t))
}

/// The present time in seconds since the Unix epoch, 0 if the clock stands
/// before it. Which time the clock shows is left open.
pub fn now_unix() -> (r: i64)
    ensures
        is_reading(r),
{
    let t: std::time::SystemTime = std::time::SystemTime::now();
    match since_unix_epoch(t) {
        Ok(elapsed) => unix_stamp(Some(elapsed.as_secs())),
        Err(_) => unix_stamp(None),
    }
}

/// A clock at or after the epoch is stamped with the seconds that it shows, as
/// far as 63 bits hold them, and beyond that with the same 64 bits. A clock
/// before the epoch is stamped with 0.
pub proof fn law_unix_stamp(elapsed: Option<u64>, r: i64)
    requires
        call_ensures(unix_stamp, (elapsed,), r),
    ensures
        elapsed matches Some(secs) ==> if secs < 0x8000_0000_0000_0000 {
            r == secs
        } else {
            r == secs - 0x1_0000_0000_0000_0000
        },
        elapsed is None ==> r == 0,
{
}

/// The present time is what some reading of the clock shows: its seconds since
/// the epoch, or 0 where it stands before the epoch.
pub proof fn law_now_is_a_reading(r: i64)
    requires
        call_ensures(now_unix, (), r),
    ensures
        exists|t: std::time::SystemTime|
            match #[trigger] epoch_seconds(t) {
                Some(secs) => if secs < 0x8000_0000_0000_0000 {
                    r == secs
                } else {
                    r == secs - 0x1_0000_0000_0000_0000
                },
                None => r == 0,
            },
{
    let t = choose|t: std::time::SystemTime| r == stamp(#[trigger] epoch_seconds(t));
    assert(r == stamp(epoch_seconds(t)));
}

}
