//! Modification times and their printable form.
//!
//! The filesystem hands the caller a modification time as a span measured
//! from the Unix epoch, pointing either forward or backward. The library
//! normalizes that span into the signed second/nanosecond pair that calendar
//! libraries expect, a step that is verified exact, and then formats the pair
//! through `chrono` in the machine's local time zone, which no contract can
//! pin down.

use vstd::prelude::*;
use chrono::TimeZone;

verus! {

/// A point in time, as a span from the Unix epoch: `before_epoch` gives the
/// direction, `secs` and `nanos` the magnitude, with `nanos` counting the
/// fraction of the last second.
#[derive(Debug, Clone, Copy)]
pub struct EpochTime {
    /// The instant lies before the Unix epoch.
    pub before_epoch: bool,
    /// Whole seconds of the span.
    pub secs: u64,
    /// Nanoseconds past the last whole second of the span.
    pub nanos: u32,
}

/// The span's magnitude is well-formed (the fraction is below one second)
/// and its whole seconds fit a signed 64-bit count.
pub open spec fn mtime_ok(t: EpochTime) -> bool {
    &&& t.nanos < 1_000_000_000
    &&& t.secs <= i64::MAX as u64
}

/// The instant `t`, in nanoseconds relative to the epoch (negative when the
/// instant lies before it).
pub open spec fn instant_nanos(t: EpochTime) -> int {
    if t.before_epoch {
        -(t.secs as int * 1_000_000_000 + t.nanos as int)
    } else {
        t.secs as int * 1_000_000_000 + t.nanos as int
    }
}

/// The signed whole-second part of the instant `t`, rounded toward minus
/// infinity so that the nanosecond part stays non-negative.
pub open spec fn timeline_secs(t: EpochTime) -> int {
    if !t.before_epoch {
        t.secs as int
    } else if t.nanos == 0 {
        -(t.secs as int)
    } else {
        -(t.secs as int) - 1
    }
}

/// The non-negative nanosecond part of the instant `t`, counted from the
/// second [`timeline_secs`] names.
pub open spec fn timeline_nanos(t: EpochTime) -> int {
    if !t.before_epoch {
        t.nanos as int
    } else if t.nanos == 0 {
        0int
    } else {
        1_000_000_000 - t.nanos as int
    }
}

/// The normalized pair denotes exactly the instant it came from: seconds and
/// nanoseconds recombine to the signed nanosecond count, and the nanosecond
/// part is a proper fraction.
pub proof fn lemma_timeline_exact(t: EpochTime)
    requires
        t.nanos < 1_000_000_000,
    ensures
        timeline_secs(t) * 1_000_000_000 + timeline_nanos(t) == instant_nanos(t),
        0 <= timeline_nanos(t) < 1_000_000_000,
{
}

/// Normalize a span from the epoch into the signed second/nanosecond pair
/// that denotes the same instant.
pub fn timestamp_parts(t: &EpochTime) -> (r: (i64, u32))
    requires
        mtime_ok(*t),
    ensures
        r.0 == timeline_secs(*t),
        r.1 == timeline_nanos(*t),
{
    if !t.before_epoch {
        (t.secs as i64, t.nanos)
    } else if t.nanos == 0 {
        (-(t.secs as i64), 0)
    } else {
        (-(t.secs as i64) - 1, 1_000_000_000 - t.nanos)
    }
}

/// The calendar accepts the signed second/nanosecond pair: the timestamp
/// conversion maps it to a single instant rather than rejecting it as out of
/// range. Whether it does depends on the pair alone.
pub uninterp spec fn date_renders(sec: i64, nsec: u32) -> bool;

/// The calendar accepts the instant `t` once normalized.
pub open spec fn mtime_renders(t: EpochTime) -> bool {
    date_renders(timeline_secs(t) as i64, timeline_nanos(t) as u32)
}

/// Relies on `chrono`: `TimeZone::timestamp_opt` returns `Single` exactly
/// when `DateTime::from_timestamp` accepts the pair — a function of the pair
/// alone — and `None` otherwise, never panicking; `DateTime::format` cannot
/// fail. The rendered text depends on the machine's local time zone, so only
/// the success of the call is pinned down, not the text.
#[verifier::external_body]
fn format_local_timestamp(sec: i64, nsec: u32) -> (r: Option<String>)
    ensures
        r is Some <==> date_renders(sec, nsec),
{
    match chrono::Local.timestamp_opt(sec, nsec) {
        chrono::LocalResult::Single(dt) => Some(dt.format("%F %T %Z").to_string()),
        chrono::LocalResult::Ambiguous(dt, _) => Some(dt.format("%F %T %Z").to_string()),
        chrono::LocalResult::None => None,
    }
}

/// Render a modification time as local date-time text. Text comes back
/// exactly when the span is well-formed and the calendar accepts the
/// normalized instant.
pub fn format_mtime(t: &EpochTime) -> (r: Option<String>)
    ensures
        !mtime_ok(*t) ==> r is None,
        mtime_ok(*t) ==> (r is Some <==> mtime_renders(*t)),
{
    if t.nanos < 1_000_000_000 && t.secs <= i64::MAX as u64 {
        let (sec, nsec) = timestamp_parts(t);
        format_local_timestamp(sec, nsec)
    } else {
        None
    }
}

} // verus!
