//! Wall-clock readings used to stamp users and tokens.
use vstd::prelude::*;

verus! {

/// Latest instant, in whole seconds since the Unix epoch, that the calendar
/// library can represent (December 31, 262142 CE, 23:59:59 UTC).
pub const MAX_TIMESTAMP_SECS: i64 = 8_210_266_876_799;

/// An instant in UTC: whole seconds since the Unix epoch and the nanoseconds
/// past that second.
#[derive(Clone, Copy, Debug, PartialEq, Eq, Structural)]
pub struct Timestamp {
    pub secs: i64,
    pub nanos: u32,
}

/// Reads the current UTC time through `chrono::Utc::now`.
///
/// chrono derives the value from the time elapsed since the Unix epoch
/// (`SystemTime::duration_since(UNIX_EPOCH)`, which it unwraps) and builds it
/// with `DateTime::from_timestamp(..).unwrap()`; so whenever it returns, the
/// seconds are not negative, lie within the representable calendar, and the
/// sub-second part is below one second. Which instant comes back is the
/// machine's clock and is left open.
#[verifier::external_body]
pub(crate) fn utc_now() -> (t: Timestamp)
    ensures
        0 <= t.secs <= MAX_TIMESTAMP_SECS,
        t.nanos < 1_000_000_000,
{
    let now = chrono::Utc::now();
    Timestamp { secs: now.timestamp(), nanos: now.timestamp_subsec_nanos() }
}

} // verus!
