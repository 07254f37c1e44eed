//! Points in time, and `chrono`'s part in them.

use vstd::prelude::*;

verus! {

/// A point in time: seconds since the Unix epoch, and nanoseconds past them.
#[derive(Debug, Clone, Copy, PartialEq, Eq, Structural)]
pub struct Timestamp {
    pub secs: i64,
    pub nanos: u32,
}

/// The first second that a UTC date and time can name: the start of the year
/// -262143.
pub const MIN_SECS: i64 = -8334601228800;

/// The last second that a UTC date and time can name: the end of the year
/// 262142.
pub const MAX_SECS: i64 = 8210266876799;

/// Whether a UTC date and time can name this point. A second has a billion
/// nanoseconds, and a leap second, the last of its minute, a billion more.
pub open spec fn is_instant(secs: int, nanos: int) -> bool {
    &&& MIN_SECS <= secs <= MAX_SECS
    &&& 0 <= nanos
    &&& nanos < 1_000_000_000 || (nanos < 2_000_000_000 && secs % 60 == 59)
}

/// `chrono::Utc.timestamp_opt`: the point in time, where a UTC date and time
/// can name it.
#[verifier::external_body]
pub(crate) fn utc_instant(secs: i64, nanos: u32) -> (r: Option<Timestamp>)
    ensures
        r == (if is_instant(secs as int, nanos as int) {
            Some(Timestamp { secs, nanos })
        } else {
            None
        }),
{
    match chrono::TimeZone::timestamp_opt(&chrono::Utc, secs, nanos).single() {
        Some(at) => Some(Timestamp { secs: at.timestamp(), nanos: at.timestamp_subsec_nanos() }),
        None => None,
    }
}

/// `chrono::Utc::now`: some point in time. Nothing ties it to the arguments of
/// any call, and it is not stated to follow earlier ones.
#[verifier::external_body]
pub(crate) fn utc_now() -> (r: Timestamp)
    ensures
        is_instant(r.secs as int, r.nanos as int),
{
    let at = chrono::Utc::now();
    Timestamp { secs: at.timestamp(), nanos: at.timestamp_subsec_nanos() }
}

/// A point in time lies between the years -262143 and 262142, with less than a
/// billion nanoseconds, or less than two billion in the last second of a minute.
pub proof fn law_instant(secs: int, nanos: int)
    ensures
        -8334601228800 <= secs <= 8210266876799 && 0 <= nanos < 1_000_000_000 ==> is_instant(
            secs,
            nanos,
        ),
        is_instant(secs, nanos) ==> -8334601228800 <= secs <= 8210266876799 && 0 <= nanos
            < 2_000_000_000,
        is_instant(secs, nanos) && nanos >= 1_000_000_000 ==> secs % 60 == 59,
        -8334601228800 <= secs <= 8210266876799 && secs % 60 == 59 && 0 <= nanos < 2_000_000_000
            ==> is_instant(secs, nanos),
{
}

} // verus!
