//! Second-based timestamps for certificate validity windows.
//!
//! Certificates carry their validity window with one-second precision, so
//! the library models every instant as a number of seconds since the Unix
//! epoch. Two ranges matter: what the clock's date type can represent
//! (years -9999 to 9999), and the narrower window an X.509 validity field
//! can encode — its time types write four-digit years, so nothing before
//! year 0 fits. Signing demands the narrower range.

use vstd::prelude::*;

verus! {

/// Earliest second a certificate validity field can carry
/// (start of year 0; X.509 times are written with four-digit years).
pub const UNIX_TS_MIN: i64 = -62167219200;

/// Latest second a certificate validity field can carry (end of year 9999).
pub const UNIX_TS_MAX: i64 = 253402300799;

/// Earliest second the clock's date type itself represents (start of year
/// -9999). The clock can report instants down to this, below what a
/// certificate can encode.
pub const CLOCK_TS_MIN: i64 = -377705116800;

/// A timestamp a certificate validity field can carry.
pub open spec fn ts_in_range(ts: i64) -> bool {
    UNIX_TS_MIN <= ts <= UNIX_TS_MAX
}

/// The number of seconds in one day, used to turn a validity duration
/// expressed in days into the second-based timestamps certificates carry.
pub const SECONDS_PER_DAY: i64 = 86400;

/// Turns a duration in days into seconds, refusing values whose
/// conversion would overflow the signed 64-bit range.
pub fn days_to_seconds(days: i64) -> (r: Option<i64>)
    ensures
        match r {
            Some(s) => s == days * SECONDS_PER_DAY,
            None => days * SECONDS_PER_DAY < i64::MIN || days * SECONDS_PER_DAY > i64::MAX,
        },
{
    days.checked_mul(SECONDS_PER_DAY)
}

/// Relies on time::OffsetDateTime::now_utc and unix_timestamp: the current
/// time. A value is only returned while the clock lies within the date
/// type's year range, so the result lies between the earliest and latest
/// representable seconds.
#[verifier::external_body]
pub fn now_unix() -> (r: i64)
    ensures
        CLOCK_TS_MIN <= r <= UNIX_TS_MAX,
{
    time::OffsetDateTime::now_utc().unix_timestamp()
}

} // verus!
