use vstd::prelude::*;

use crate::models::Timestamp;

verus! {

#[verifier::external_type_specification]
#[verifier::external_body]
pub struct ExSystemTime(std::time::SystemTime);

/// The system clock's current reading, by `std::time::SystemTime::now`. It
/// depends on the clock, so nothing is stated of it.
#[verifier::external_body]
fn system_now() -> std::time::SystemTime {
    std::time::SystemTime::now()
}

/// The time from the Unix epoch to `t`, by `SystemTime::duration_since`
/// with `UNIX_EPOCH`, as whole seconds (`Duration::as_secs`) and the
/// nanoseconds past them (`Duration::subsec_nanos`); none when `t` is before
/// the epoch. The value depends on the opaque `t`, so only the bound that
/// `Duration` documents for its sub-second part is stated.
#[verifier::external_body]
fn since_epoch(t: std::time::SystemTime) -> (r: Option<(u64, u32)>)
    ensures
        r matches Some(p) ==> p.1 < 1_000_000_000,
{
    match t.duration_since(std::time::UNIX_EPOCH) {
        Ok(d) => Some((d.as_secs(), d.subsec_nanos())),
        Err(_) => None,
    }
}

/// The time `secs` seconds and `nanos` nanoseconds after the epoch, when
/// it is a clock reading whose seconds fit an `i64`.
pub fn timestamp_after_epoch(secs: u64, nanos: u32) -> (t: Option<Timestamp>)
    ensures
        t is Some <==> (secs <= i64::MAX && nanos < 1_000_000_000),
        t matches Some(t) ==> t.secs == secs && t.nanos == nanos && t.is_clock_reading(),
{
    if secs <= i64::MAX as u64 && nanos < 1_000_000_000 {
        Some(Timestamp { secs: secs as i64, nanos })
    } else {
        None
    }
}

/// The current time; none when the system clock reads before the epoch
/// (or so far after it that the seconds do not fit an `i64`).
pub fn now() -> (t: Option<Timestamp>)
    ensures
        t matches Some(t) ==> t.is_clock_reading(),
{
    match since_epoch(system_now()) {
        Some((secs, nanos)) => timestamp_after_epoch(secs, nanos),
        None => None,
    }
}

/// The report made when the clock cannot give a time.
pub open spec fn clock_failure_text() -> Seq<char> {
    "system clock reads before the Unix epoch"@
}

} // verus!
