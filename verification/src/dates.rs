use vstd::prelude::*;

verus! {

/// An instant in UTC: seconds since 1970-01-01T00:00:00Z and the
/// nanoseconds past that second.
#[derive(Clone, Copy, Debug)]
pub struct UtcTimestamp {
    pub seconds: i64,
    pub nanos: u32,
}

/// What chrono's `str::parse::<DateTime<Utc>>` makes of a text: the instant
/// as (seconds, nanoseconds), or `None` where it refuses the text.
pub uninterp spec fn utc_instant_parse(s: Seq<char>) -> Option<(i64, u32)>;

/// What chrono's `NaiveDate::parse_from_str` makes of a text under a
/// format: the date as its day number counted from 0001-01-01 as day 1,
/// or the text of its error.
pub uninterp spec fn calendar_date_parse(s: Seq<char>, fmt: Seq<char>) -> Result<i32, Seq<char>>;

/// Calls `s.parse::<chrono::DateTime<chrono::Utc>>()`, which accepts RFC 3339
/// with a `T` or a space between date and time. Claimed: the result is a
/// function of the text alone, named `utc_instant_parse`.
#[verifier::external_body]
fn parse_utc_instant(s: &str) -> (r: Option<(i64, u32)>)
    ensures
        r == utc_instant_parse(s@),
{
    match s.parse::<chrono::DateTime<chrono::Utc>>() {
        Ok(dt) => Some((dt.timestamp(), dt.timestamp_subsec_nanos())),
        Err(_) => None,
    }
}

/// Calls `chrono::NaiveDate::parse_from_str(s, fmt)` and, on success,
/// `Datelike::num_days_from_ce` of the date; on failure the error's text.
/// Claimed: the result is a function of the two texts alone, named
/// `calendar_date_parse`.
#[verifier::external_body]
fn parse_calendar_date(s: &str, fmt: &str) -> (r: Result<i32, String>)
    ensures
        match r {
            Ok(d) => calendar_date_parse(s@, fmt@) == Ok::<i32, Seq<char>>(d),
            Err(m) => calendar_date_parse(s@, fmt@) == Err::<i32, Seq<char>>(m@),
        },
{
    match chrono::NaiveDate::parse_from_str(s, fmt) {
        Ok(d) => Ok(chrono::Datelike::num_days_from_ce(&d)),
        Err(e) => Err(e.to_string()),
    }
}

/// The day number of 1970-01-01, counting 0001-01-01 as day 1.
pub open spec fn epoch_day_number() -> int {
    719163
}

/// Seconds from the epoch to midnight UTC at the start of a day.
pub open spec fn midnight_seconds(day_number: int) -> int {
    (day_number - epoch_day_number()) * 86400
}

/// The instant at which a day begins in UTC.
pub fn midnight_utc(day_number: i32) -> (t: UtcTimestamp)
    ensures
        t.seconds == midnight_seconds(day_number as int),
        t.nanos == 0,
{
    let days: i64 = day_number as i64 - 719163;
    assert(-0x1_0000_0000 <= days <= 0x1_0000_0000);
    assert(-0x1_0000_0000 * 86400 <= days * 86400 <= 0x1_0000_0000 * 86400) by (nonlinear_arith)
        requires
            -0x1_0000_0000 <= days <= 0x1_0000_0000,
    ;
    UtcTimestamp { seconds: days * 86400, nanos: 0 }
}

/// The date format that a plain date is read in.
pub open spec fn date_format() -> Seq<char> {
    "%Y-%m-%d"@
}

/// What `parse_datetime` gives for a text.
pub open spec fn datetime_answer(s: Seq<char>, r: Result<UtcTimestamp, String>) -> bool {
    match utc_instant_parse(s) {
        Some((secs, nanos)) => r == Ok::<UtcTimestamp, String>(UtcTimestamp { seconds: secs, nanos }),
        None => match calendar_date_parse(s, date_format()) {
            Ok(d) => r matches Ok(t) && t.seconds == midnight_seconds(d as int) && t.nanos == 0,
            Err(m) => r matches Err(x) && x@ == m,
        },
    }
}

/// Reads an instant: as RFC 3339 first, else as a `YYYY-MM-DD` date taken
/// at midnight UTC; where both fail, the date parser's error text.
pub fn parse_datetime(s: &str) -> (r: Result<UtcTimestamp, String>)
    ensures
        datetime_answer(s@, r),
{
    if let Some((seconds, nanos)) = parse_utc_instant(s) {
        return Ok(UtcTimestamp { seconds, nanos });
    }
    match parse_calendar_date(s, "%Y-%m-%d") {
        Ok(day) => Ok(midnight_utc(day)),
        Err(m) => Err(m),
    }
}

/// Reads an optional instant; an absent one stays absent.
pub fn parse_optional_datetime(input: Option<String>) -> (r: Result<Option<UtcTimestamp>, String>)
    ensures
        match input {
            None => r == Ok::<Option<UtcTimestamp>, String>(None),
            Some(s) => match r {
                Ok(Some(t)) => datetime_answer(s@, Ok(t)),
                Ok(None) => false,
                Err(m) => datetime_answer(s@, Err(m)),
            },
        },
{
    match input {
        None => Ok(None),
        Some(s) => match parse_datetime(s.as_str()) {
            Ok(t) => Ok(Some(t)),
            Err(m) => Err(m),
        },
    }
}

} // verus!
