//! Time: the instants `chrono` can represent, reading the system clock
//! without panicking, and the RFC 3339 text of an instant.
use vstd::prelude::*;

verus! {

broadcast use vstd::string::group_string_axioms;

/// The latest instant `chrono` can represent (`DateTime::<Utc>::MAX_UTC`,
/// the last nanosecond of 262142-12-31), in nanoseconds since the Unix epoch.
pub const MAX_UTC_NANOS: i128 = 8_210_266_876_799_999_999_999;

/// The earliest instant `chrono` can represent (`DateTime::<Utc>::MIN_UTC`),
/// in nanoseconds since the Unix epoch.
pub const MIN_UTC_NANOS: i128 = -8_334_601_228_800_000_000_000;

/// The whole second of `DateTime::<Utc>::MAX_UTC`, since the Unix epoch.
pub const MAX_UTC_SECS: i64 = 8_210_266_876_799;

/// The whole second of `DateTime::<Utc>::MIN_UTC`, since the Unix epoch.
pub const MIN_UTC_SECS: i64 = -8_334_601_228_800;

/// The largest number of seconds a `chrono::TimeDelta` built from whole
/// seconds may hold (`i64::MAX / 1000`), in either direction.
pub const MAX_DELTA_SECS: i64 = 9_223_372_036_854_775;

/// `t` nanoseconds since the epoch is an instant a UTC `DateTime` can hold.
pub open spec fn utc_instant(t: int) -> bool {
    MIN_UTC_NANOS <= t <= MAX_UTC_NANOS
}

/// An RFC 3339 date-time text in UTC as `chrono` writes it: a `T` between
/// date and time, and the offset `+00:00` at the end.
pub open spec fn rfc3339_utc_text(s: Seq<char>) -> bool {
    &&& s.len() >= 6
    &&& s.subrange(s.len() - 6, s.len() as int) == "+00:00"@
    &&& s.contains('T')
}

/// The RFC 3339 text `chrono` writes (`to_rfc3339`) for the UTC instant
/// `secs` seconds and `nanos` nanoseconds after the Unix epoch.
pub uninterp spec fn rfc3339_text_of(secs: i64, nanos: u32) -> Seq<char>;

/// Declares `std::time::SystemTime`.
#[verifier::external_type_specification]
#[verifier::external_body]
pub struct ExSystemTime(std::time::SystemTime);

/// `SystemTime::now()`: the system clock's reading. Nothing is stated of it.
#[verifier::external_body]
fn system_now() -> (t: std::time::SystemTime) {
    std::time::SystemTime::now()
}

/// `SystemTime::duration_since(UNIX_EPOCH)` as whole seconds and
/// nanoseconds; none when `t` is earlier than the epoch. The nanoseconds are
/// below one second (`Duration::subsec_nanos`).
#[verifier::external_body]
fn since_unix_epoch(t: &std::time::SystemTime) -> (r: Option<(u64, u32)>)
    ensures
        r matches Some((_, n)) ==> n < 1_000_000_000,
{
    match t.duration_since(std::time::UNIX_EPOCH) {
        Ok(d) => Some((d.as_secs(), d.subsec_nanos())),
        Err(_) => None,
    }
}

/// `chrono::DateTime::from_timestamp(secs, nanos)` written with
/// `to_rfc3339`. `from_timestamp` gives none only outside chrono's range or
/// for nanoseconds of two seconds or more; the text is named, and it is RFC
/// 3339 with the offset `+00:00`.
#[verifier::external_body]
pub(crate) fn rfc3339_at(secs: i64, nanos: u32) -> (r: Option<String>)
    ensures
        r matches Some(s) ==> s@ == rfc3339_text_of(secs, nanos) && rfc3339_utc_text(s@),
        (nanos < 1_000_000_000 && MIN_UTC_SECS <= secs <= MAX_UTC_SECS) ==> r is Some,
{
    match chrono::DateTime::from_timestamp(secs, nanos) {
        Some(t) => Some(t.to_rfc3339()),
        None => None,
    }
}

/// The current time as whole seconds and nanoseconds since the Unix epoch,
/// when the clock reads a time chrono can represent at or after the epoch.
pub fn clock_now() -> (r: Option<(i64, u32)>)
    ensures
        r matches Some((s, n)) ==> 0 <= s <= MAX_UTC_SECS && n < 1_000_000_000,
{
    let t = system_now();
    match since_unix_epoch(&t) {
        Some((s, n)) => {
            if s <= 8_210_266_876_799u64 {
                Some((s as i64, n))
            } else {
                None
            }
        },
        None => None,
    }
}

/// The current time as RFC 3339 UTC text; none when the clock reads a time
/// before the Unix epoch or beyond chrono's range.
pub fn now_rfc3339() -> (r: Option<String>)
    ensures
        r matches Some(t) ==> rfc3339_utc_text(t@),
{
    match clock_now() {
        Some((s, n)) => rfc3339_at(s, n),
        None => None,
    }
}

} // verus!
