use vstd::prelude::*;
use vstd::string::StringExecFns;

verus! {

/// A point in time in UTC: whole seconds since the Unix epoch and the
/// nanoseconds past that second (from one billion up during a leap second).
#[derive(Clone, Copy, Debug, PartialEq, Eq, Structural)]
pub struct Timestamp {
    pub secs: i64,
    pub nanos: u32,
}

/// `a` is not later than `b`.
pub open spec fn ts_le(a: Timestamp, b: Timestamp) -> bool {
    a.secs < b.secs || (a.secs == b.secs && a.nanos <= b.nanos)
}

/// What chrono's `NaiveDateTime::parse_from_str` gives for text `s` and
/// format `fmt`, read as a UTC instant: seconds since the epoch and
/// sub-second nanoseconds, or `None` when the text does not parse.
pub uninterp spec fn utc_parse(s: Seq<char>, fmt: Seq<char>) -> Option<(i64, u32)>;

pub open spec fn to_timestamp(p: Option<(i64, u32)>) -> Option<Timestamp> {
    match p {
        Some((secs, nanos)) => Some(Timestamp { secs, nanos }),
        None => None,
    }
}

/// Format of the `SystemTime` attribute of an event's creation time.
pub open spec fn time_created_format() -> Seq<char> {
    seq!['%', 'Y', '-', '%', 'm', '-', '%', 'd', ' ', '%', 'H', ':', '%', 'M', ':', '%', 'S', '%', '.', 'f', ' ', 'U', 'T', 'C']
}

/// Format of a boundary date once its time of day is appended.
pub open spec fn date_format() -> Seq<char> {
    seq!['%', 'Y', '-', '%', 'm', '-', '%', 'd', ' ', '%', 'H', ':', '%', 'M', ':', '%', 'S']
}

/// The time of day appended to a boundary date: midnight.
pub open spec fn midnight_suffix() -> Seq<char> {
    seq![' ', '0', '0', ':', '0', '0', ':', '0', '0']
}

/// Relies on chrono's `NaiveDateTime::parse_from_str` to read `s` in format
/// `fmt`, and on `and_utc().timestamp()` / `timestamp_subsec_nanos()` to
/// express the result; the nanoseconds stay under two billion.
#[verifier::external_body]
fn parse_utc(s: &str, fmt: &str) -> (r: Option<(i64, u32)>)
    ensures
        r == utc_parse(s@, fmt@),
        r matches Some((_, nanos)) ==> nanos < 2_000_000_000,
{
    match chrono::NaiveDateTime::parse_from_str(s, fmt) {
        Ok(naive) => {
            let dt = naive.and_utc();
            Some((dt.timestamp(), dt.timestamp_subsec_nanos()))
        },
        Err(_) => None,
    }
}

/// Parses an event creation time such as `2024-08-18 13:45:55.479781 UTC`.
pub fn parse_time_created(s: &str) -> (r: Option<Timestamp>)
    ensures
        r == to_timestamp(utc_parse(s@, time_created_format())),
{
    proof {
        reveal_strlit("%Y-%m-%d %H:%M:%S%.f UTC");
    }
    let fmt = "%Y-%m-%d %H:%M:%S%.f UTC";
    assert(fmt@ == time_created_format());
    match parse_utc(s, fmt) {
        Some((secs, nanos)) => Some(Timestamp { secs, nanos }),
        None => None,
    }
}

/// A boundary date `YYYY-MM-DD` read as midnight UTC at the start of that date.
pub open spec fn date_start(date: Seq<char>) -> Option<Timestamp> {
    to_timestamp(utc_parse(date + midnight_suffix(), date_format()))
}

/// Parses a boundary date `YYYY-MM-DD` as midnight UTC at the start of that
/// date; `None` when it is not such a date.
pub fn parse_date(date: &str) -> (r: Option<Timestamp>)
    ensures
        r == date_start(date@),
{
    proof {
        reveal_strlit(" 00:00:00");
        reveal_strlit("%Y-%m-%d %H:%M:%S");
    }
    let suffix = " 00:00:00";
    let fmt = "%Y-%m-%d %H:%M:%S";
    assert(suffix@ == midnight_suffix());
    assert(fmt@ == date_format());
    let text = String::from_str(date).concat(suffix);
    match parse_utc(text.as_str(), fmt) {
        Some((secs, nanos)) => Some(Timestamp { secs, nanos }),
        None => None,
    }
}

/// Whether `t` lies in the window: not before `start` and not after `end`,
/// each bound inclusive and imposing nothing when absent.
pub open spec fn in_range_spec(t: Timestamp, start: Option<Timestamp>, end: Option<Timestamp>) -> bool {
    (start matches Some(s) ==> ts_le(s, t)) && (end matches Some(e) ==> ts_le(t, e))
}

/// Checks that `event_time` falls within the inclusive window `[start, end]`.
pub fn in_date_range(event_time: &Timestamp, start: Option<Timestamp>, end: Option<Timestamp>) -> (r: bool)
    ensures
        r == in_range_spec(*event_time, start, end),
{
    if let Some(s) = start {
        if event_time.secs < s.secs || (event_time.secs == s.secs && event_time.nanos < s.nanos) {
            return false;
        }
    }
    if let Some(e) = end {
        if event_time.secs > e.secs || (event_time.secs == e.secs && event_time.nanos > e.nanos) {
            return false;
        }
    }
    true
}

} // verus!
