//! Moments in time as plain numbers, and their two written forms.

use vstd::prelude::*;

verus! {

/// A moment in UTC: whole seconds since 1970-01-01 00:00:00, and the nanoseconds
/// that have passed since that second began.
#[derive(Clone, Copy, Debug, PartialEq, Eq, Structural)]
pub struct Timestamp {
    pub secs: i64,
    pub nanos: u32,
}

/// What `chrono` writes for the moment (`secs`, `nanos`) under the pattern
/// `pattern`; `None` where `chrono` cannot represent the moment.
pub uninterp spec fn formatted_text(secs: int, nanos: int, pattern: Seq<char>) -> Option<Seq<char>>;

/// What `chrono` writes for the moment (`secs`, `nanos`) when a UTC date and
/// time is displayed, as in `2015-05-15 00:00:00 UTC`; `None` where `chrono`
/// cannot represent the moment.
pub uninterp spec fn display_text(secs: int, nanos: int) -> Option<Seq<char>>;

/// The pattern of the compact written form: year, month, day, an underscore,
/// hour, minute, second, as in `20240131_235959`.
pub open spec fn compact_pattern() -> Seq<char> {
    "%Y%m%d_%H%M%S"@
}

impl Timestamp {
    /// The compact written form of this moment, used in file names.
    pub open spec fn compact(self) -> Option<Seq<char>> {
        formatted_text(self.secs as int, self.nanos as int, compact_pattern())
    }

    /// The displayed form of this moment, used in log lines.
    pub open spec fn displayed(self) -> Option<Seq<char>> {
        display_text(self.secs as int, self.nanos as int)
    }
}

/// Calls `chrono::DateTime::from_timestamp` and, where it yields a moment,
/// `DateTime::format` with `pattern`, which is the compact pattern. Trusted: the
/// text is whatever `chrono` writes, a function of the two numbers and the
/// pattern alone.
#[verifier::external_body]
pub(crate) fn format_compact(t: Timestamp, pattern: &str) -> (r: Option<String>)
    requires
        pattern@ == compact_pattern(),
    ensures
        r is Some <==> formatted_text(t.secs as int, t.nanos as int, pattern@) is Some,
        r matches Some(s) ==> formatted_text(t.secs as int, t.nanos as int, pattern@) == Some(s@),
{
    match chrono::DateTime::from_timestamp(t.secs, t.nanos) {
        Some(moment) => Some(moment.format(pattern).to_string()),
        None => None,
    }
}

/// Calls `chrono::DateTime::from_timestamp` and, where it yields a moment, the
/// `Display` of `DateTime<Utc>`. Trusted: the text is whatever `chrono` writes, a
/// function of the two numbers alone.
#[verifier::external_body]
pub(crate) fn format_display(t: Timestamp) -> (r: Option<String>)
    ensures
        r is Some <==> display_text(t.secs as int, t.nanos as int) is Some,
        r matches Some(s) ==> display_text(t.secs as int, t.nanos as int) == Some(s@),
{
    match chrono::DateTime::from_timestamp(t.secs, t.nanos) {
        Some(moment) => Some(moment.to_string()),
        None => None,
    }
}

/// Reads the clock with `chrono::Utc::now` and takes the moment apart with
/// `DateTime::timestamp` and `DateTime::timestamp_subsec_nanos`. Trusted: of the
/// moment that comes back, only that `chrono` can represent it, so that both
/// its written forms exist; `Utc::now` builds it with `from_timestamp`, which
/// gives the same moment back for the two numbers. `chrono` gives up where the
/// system's clock stands before the year 1970.
#[verifier::external_body]
pub(crate) fn now() -> (t: Timestamp)
    ensures
        formatted_text(t.secs as int, t.nanos as int, compact_pattern()) is Some,
        display_text(t.secs as int, t.nanos as int) is Some,
{
    let t = chrono::Utc::now();
    Timestamp { secs: t.timestamp(), nanos: t.timestamp_subsec_nanos() }
}

} // verus!
