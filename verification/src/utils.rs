use vstd::prelude::*;
use vstd::string::StringExecFns;

verus! {

/// The lowest millisecond timestamp accepted for local-time rendering.
pub const MIN_RENDERABLE_MS: i64 = -8000000000000000;

/// The highest millisecond timestamp accepted for local-time rendering.
pub const MAX_RENDERABLE_MS: i64 = 8000000000000000;

/// Whether a millisecond timestamp may be rendered in a local zone: the
/// calendar arithmetic accepts values up to roughly 262,000 years from the
/// epoch, and converting to a zone shifts the value by less than a day, so
/// these bounds (about 253,000 years) leave room of thousands of years on
/// either side.
pub open spec fn timestamp_in_render_range(ts_ms: int) -> bool {
    MIN_RENDERABLE_MS <= ts_ms <= MAX_RENDERABLE_MS
}

/// The RFC 3339 rendering (seconds precision, `Z` suffix) of a millisecond
/// Unix timestamp in UTC, or `None` when the value lies outside the range
/// the calendar arithmetic accepts. Names what
/// `chrono::DateTime::from_timestamp_millis` followed by `to_rfc3339_opts`
/// computes; the result depends on the millisecond value alone.
pub uninterp spec fn rfc3339_utc_of(ts_ms: int) -> Option<Seq<char>>;

/// Renders a millisecond Unix timestamp for display.
///
/// Relies on `chrono::DateTime::from_timestamp_millis`, `with_timezone` and
/// `to_rfc3339_opts`: the UTC rendering is a function of the millisecond
/// value alone, named `rfc3339_utc_of`; whether the value is representable
/// does not depend on the zone, so the local rendering (which depends on the
/// machine's time zone and is not pinned down) is `Some` for exactly the
/// same values. Rendering in a local zone shifts the value by the zone's
/// offset first, which aborts at the very edge of the representable range;
/// the precondition keeps local rendering well inside it.
#[verifier::external_body]
pub fn parse_timestamp(timestamp_ms: i64, to_local_time: bool) -> (r: Option<String>)
    requires
        to_local_time ==> timestamp_in_render_range(timestamp_ms as int),
    ensures
        !to_local_time ==> match (r, rfc3339_utc_of(timestamp_ms as int)) {
            (Some(s), Some(v)) => s@ == v,
            (None, None) => true,
            _ => false,
        },
        to_local_time ==> (r is Some <==> rfc3339_utc_of(timestamp_ms as int) is Some),
{
    if let Some(time) = chrono::DateTime::from_timestamp_millis(timestamp_ms) {
        if to_local_time {
            let local = time.with_timezone(&chrono::Local);
            return Some(local.to_rfc3339_opts(chrono::SecondsFormat::Secs, true));
        }
        return Some(time.to_rfc3339_opts(chrono::SecondsFormat::Secs, true));
    }
    None
}

/// The duration a text names, in whole milliseconds, or `None` when the text
/// is not a duration or overflows the millisecond scale. Names what
/// `humantime::parse_duration` followed by the conversion to milliseconds
/// computes; the result depends on the text alone.
pub uninterp spec fn parsed_duration_millis(s: Seq<char>) -> Option<u64>;

/// Relies on `humantime::parse_duration`: a pure parser of texts like "5m"
/// or "2h 15m", whose result (here converted to whole milliseconds) depends
/// on the text alone; it is named `parsed_duration_millis`.
#[verifier::external_body]
fn parse_duration_millis(s: &str) -> (r: Option<u64>)
    ensures
        r == parsed_duration_millis(s@),
{
    let duration = humantime::parse_duration(s).ok()?;
    u64::try_from(duration.as_millis()).ok()
}

/// The millisecond Unix timestamp a date-time text names, or `None` when the
/// text is not a date-time, lies before the epoch, or overflows the
/// millisecond scale. Names what `humantime::parse_rfc3339_weak` followed by
/// the conversion to milliseconds computes; the result depends on the text
/// alone.
pub uninterp spec fn parsed_datetime_millis(s: Seq<char>) -> Option<i64>;

/// Relies on `humantime::parse_rfc3339_weak`: a pure parser of date-times
/// like "2001-02-03 04:05:06", whose result (here converted to milliseconds
/// since the epoch) depends on the text alone; it is named
/// `parsed_datetime_millis`.
#[verifier::external_body]
fn parse_datetime_millis(s: &str) -> (r: Option<i64>)
    ensures
        r == parsed_datetime_millis(s@),
{
    let time = humantime::parse_rfc3339_weak(s).ok()?;
    let since_epoch = time.duration_since(std::time::UNIX_EPOCH).ok()?;
    i64::try_from(since_epoch.as_millis()).ok()
}

/// What a human-friendly time means, given the clock: a duration is taken
/// back from now; anything else must be a date-time and stands for itself.
/// Nothing when the text parses neither way, or the arithmetic leaves the
/// millisecond scale.
pub open spec fn human_time_spec(s: Seq<char>, now_ms: int) -> Option<int> {
    match parsed_duration_millis(s) {
        Some(d) => {
            let v = now_ms - d;
            if i64::MIN <= v {
                Some(v)
            } else {
                None
            }
        },
        None => match parsed_datetime_millis(s) {
            Some(m) => Some(m as int),
            None => None,
        },
    }
}

/// Turns a human-friendly time — a duration before `now_ms`, or a date-time
/// — into a millisecond Unix timestamp: exactly `human_time_spec`.
pub fn parse_human_time(h_time: &str, now_ms: i64) -> (r: Result<i64, String>)
    ensures
        match (r, human_time_spec(h_time@, now_ms as int)) {
            (Ok(a), Some(b)) => a == b,
            (Err(_), None) => true,
            _ => false,
        },
{
    match parse_duration_millis(h_time) {
        Some(d) => match now_ms.checked_sub_unsigned(d) {
            Some(v) => Ok(v),
            None => Err(String::from_str("duration reaches before the representable range")),
        },
        None => match parse_datetime_millis(h_time) {
            Some(m) => Ok(m),
            None => Err(String::from_str("expected a duration or a date-time")),
        },
    }
}

} // verus!
