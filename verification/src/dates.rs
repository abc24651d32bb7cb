//! Date and time inputs: `YYYY-MM-DD`, naive `YYYY-MM-DDTHH:MM[:SS]` and
//! RFC 3339 values, read in an IANA time zone or in the Mac's local time.
//! Parsing, zone rules and formatting are chrono's; which reading applies,
//! in which order, and what error is reported is decided here.

use crate::text::{text_of, joined};
use vstd::prelude::*;
use vstd::string::*;

verus! {

/// An instant as a count of non-leap seconds since 1970-01-01T00:00:00Z and
/// a sub-second part in nanoseconds. As in chrono, the sub-second part is at
/// least one second only while a leap second is shown.
pub struct Instant {
    pub seconds: i64,
    pub nanos: u32,
}

impl Clone for Instant {
    fn clone(&self) -> (r: Self)
        ensures
            r == *self,
    {
        Instant { seconds: self.seconds, nanos: self.nanos }
    }
}

impl Copy for Instant {

}

/// Chronological order, compared as chrono compares date-times: first by the
/// second, then by the sub-second part.
pub open spec fn instant_before(a: Instant, b: Instant) -> bool {
    a.seconds < b.seconds || (a.seconds == b.seconds && a.nanos < b.nanos)
}

/// The instant in nanoseconds since the epoch; a leap second counts as the
/// second that follows it.
pub open spec fn total_nanos(i: Instant) -> int {
    i.seconds * 1_000_000_000 + i.nanos
}

/// `a` strictly before `b`.
pub fn is_before(a: Instant, b: Instant) -> (r: bool)
    ensures
        r == instant_before(a, b),
{
    a.seconds < b.seconds || (a.seconds == b.seconds && a.nanos < b.nanos)
}

/// The outcome of reading a wall-clock time in a time zone.
pub enum Resolution {
    Single(Instant),
    Ambiguous,
    Missing,
}

/// A date of the proleptic Gregorian calendar, as chrono's `NaiveDate`
/// holds it.
#[derive(Clone, Copy)]
pub struct CivilDate {
    pub year: i32,
    pub month: u32,
    pub day: u32,
}

/// A wall-clock date and time, as chrono's `NaiveDateTime` holds it; the
/// sub-second part reaches one second only inside a leap second.
#[derive(Clone, Copy)]
pub struct CivilDateTime {
    pub date: CivilDate,
    pub hour: u32,
    pub minute: u32,
    pub second: u32,
    pub nanos: u32,
}

/// Gregorian leap years (year 0 is one, as in chrono).
pub open spec fn is_leap_year(year: int) -> bool {
    year % 4 == 0 && (year % 100 != 0 || year % 400 == 0)
}

/// The number of days in a month of a year.
pub open spec fn days_in_month(year: int, month: int) -> int {
    if month == 2 {
        if is_leap_year(year) {
            29
        } else {
            28
        }
    } else if month == 4 || month == 6 || month == 9 || month == 11 {
        30
    } else {
        31
    }
}

/// The dates chrono can hold: years -262143 to 262142, real months and
/// days.
pub open spec fn valid_date(d: CivilDate) -> bool {
    &&& -262143 <= d.year <= 262142
    &&& 1 <= d.month <= 12
    &&& 1 <= d.day <= days_in_month(d.year as int, d.month as int)
}

/// The date-times chrono can hold (`NaiveTime::from_hms_nano_opt`): a leap
/// second only as second 59.
pub open spec fn valid_datetime(t: CivilDateTime) -> bool {
    &&& valid_date(t.date)
    &&& t.hour < 24 && t.minute < 60 && t.second < 60
    &&& t.nanos < 2_000_000_000
    &&& t.nanos >= 1_000_000_000 ==> t.second == 59
}

/// The day after a date (`NaiveDate::checked_add_days` with one day);
/// absent after chrono's last date, 262142-12-31.
pub open spec fn next_date_of(d: CivilDate) -> Option<CivilDate> {
    if d.day < days_in_month(d.year as int, d.month as int) {
        Some(CivilDate { year: d.year, month: d.month, day: (d.day + 1) as u32 })
    } else if d.month < 12 {
        Some(CivilDate { year: d.year, month: (d.month + 1) as u32, day: 1 })
    } else if d.year < 262142 {
        Some(CivilDate { year: (d.year + 1) as i32, month: 1, day: 1 })
    } else {
        None
    }
}

/// Midnight at the start of a date.
pub open spec fn midnight_at(d: CivilDate) -> CivilDateTime {
    CivilDateTime { date: d, hour: 0, minute: 0, second: 0, nanos: 0 }
}

/// The date chrono reads from a `%Y-%m-%d` text, if it reads one.
pub uninterp spec fn calendar_date_of(text: Seq<char>) -> Option<CivilDate>;

/// The date-time chrono reads from a text in a strftime format, if any.
pub uninterp spec fn naive_fields_of(text: Seq<char>, format: Seq<char>) -> Option<CivilDateTime>;

/// How the IANA zone of that name places a wall-clock time
/// (`TimeZone::from_local_datetime` with chrono-tz's built-in rules).
pub uninterp spec fn zone_resolution(t: CivilDateTime, zone: Seq<char>) -> Resolution;

#[verifier::external_type_specification]
#[verifier::external_body]
pub struct ExTz(chrono_tz::Tz);

/// The instant an RFC 3339 text denotes, if chrono accepts it.
pub uninterp spec fn rfc3339_instant(text: Seq<char>) -> Option<Instant>;

/// Whether chrono reads the text as a `%Y-%m-%d` calendar date.
pub open spec fn is_calendar_date(text: Seq<char>) -> bool {
    calendar_date_of(text) is Some
}

/// Whether chrono reads the text as a naive date-time in the given format.
pub open spec fn naive_parses(text: Seq<char>, format: Seq<char>) -> bool {
    naive_fields_of(text, format) is Some
}

/// Whether chrono-tz knows the name as an IANA time zone.
pub uninterp spec fn is_iana_zone(name: Seq<char>) -> bool;

/// The RFC 3339 rendering of an instant in UTC (`+00:00`, full precision).
pub uninterp spec fn utc_rfc3339_text(i: Instant) -> Seq<char>;

/// Reads an RFC 3339 date-time (`DateTime::parse_from_rfc3339`) as an instant.
/// chrono keeps the sub-second part below two seconds.
#[verifier::external_body]
pub fn parse_rfc3339(text: &str) -> (r: Option<Instant>)
    ensures
        r == rfc3339_instant(text@),
        r matches Some(i) ==> i.nanos < 2_000_000_000 && in_chrono_range(i),
{
    chrono::DateTime::parse_from_rfc3339(text).ok().map(
        |d| Instant { seconds: d.timestamp(), nanos: d.timestamp_subsec_nanos() },
    )
}

/// Reads a `%Y-%m-%d` date (`NaiveDate::parse_from_str`), taken apart into
/// its year, month and day; chrono only makes dates it can hold.
#[verifier::external_body]
fn parse_calendar_date(text: &str) -> (r: Option<CivilDate>)
    ensures
        r == calendar_date_of(text@),
        r matches Some(d) ==> valid_date(d),
{
    let d = chrono::NaiveDate::parse_from_str(text, "%Y-%m-%d").ok()?;
    Some(CivilDate { year: chrono::Datelike::year(&d), month: chrono::Datelike::month(&d), day: chrono::Datelike::day(&d) })
}

/// Reads a naive date-time in a strftime format
/// (`NaiveDateTime::parse_from_str`), taken apart into its fields.
#[verifier::external_body]
fn parse_naive(text: &str, format: &str) -> (r: Option<CivilDateTime>)
    ensures
        r == naive_fields_of(text@, format@),
        r matches Some(t) ==> valid_datetime(t),
{
    let t = chrono::NaiveDateTime::parse_from_str(text, format).ok()?;
    let date = CivilDate { year: chrono::Datelike::year(&t), month: chrono::Datelike::month(&t), day: chrono::Datelike::day(&t) };
    Some(CivilDateTime {
        date,
        hour: chrono::Timelike::hour(&t),
        minute: chrono::Timelike::minute(&t),
        second: chrono::Timelike::second(&t),
        nanos: chrono::Timelike::nanosecond(&t),
    })
}

/// Midnight at the start of a date.
pub fn midnight_of(d: CivilDate) -> (r: CivilDateTime)
    ensures
        r == midnight_at(d),
{
    CivilDateTime { date: d, hour: 0, minute: 0, second: 0, nanos: 0 }
}

/// The number of days in a month of a year.
fn month_length(year: i32, month: u32) -> (r: u32)
    requires
        -262143 <= year <= 262142,
    ensures
        r == days_in_month(year as int, month as int),
{
    if month == 2 {
        let shifted: u32 = (year + 400_000) as u32;
        assert(is_leap_year(year as int) == is_leap_year(shifted as int)) by (nonlinear_arith)
            requires
                shifted == year + 400_000,
        {
        }
        if shifted % 4 == 0 && (shifted % 100 != 0 || shifted % 400 == 0) {
            29
        } else {
            28
        }
    } else if month == 4 || month == 6 || month == 9 || month == 11 {
        30
    } else {
        31
    }
}

/// The day after a date; absent after chrono's last date.
pub fn next_date(d: CivilDate) -> (r: Option<CivilDate>)
    requires
        valid_date(d),
    ensures
        r == next_date_of(d),
        r matches Some(n) ==> valid_date(n),
{
    if d.day < month_length(d.year, d.month) {
        Some(CivilDate { year: d.year, month: d.month, day: d.day + 1 })
    } else if d.month < 12 {
        Some(CivilDate { year: d.year, month: d.month + 1, day: 1 })
    } else if d.year < 262142 {
        Some(CivilDate { year: d.year + 1, month: 1, day: 1 })
    } else {
        None
    }
}

/// Looks up an IANA time zone (`<Tz as FromStr>::from_str`).
#[verifier::external_body]
fn lookup_zone(name: &str) -> (r: Option<chrono_tz::Tz>)
    ensures
        (r is Some) == is_iana_zone(name@),
{
    <chrono_tz::Tz as std::str::FromStr>::from_str(name).ok()
}

/// Reads a wall-clock time in the IANA zone of that name (the zone looked
/// up with `<Tz as FromStr>::from_str`, then `TimeZone::from_local_datetime`);
/// `None` for a name chrono-tz does not know. chrono-tz's rules are built
/// in, so the outcome depends on the time and the name alone.
#[verifier::external_body]
fn resolve_in_zone(t: &CivilDateTime, zone: &str) -> (r: Option<Resolution>)
    requires
        valid_datetime(*t),
    ensures
        r is Some == is_iana_zone(zone@),
        r matches Some(x) ==> x == zone_resolution(*t, zone@),
        r matches Some(Resolution::Single(i)) ==> in_chrono_range(i),
{
    let naive = chrono::NaiveDate::from_ymd_opt(t.date.year, t.date.month, t.date.day)
        .and_then(|d| d.and_hms_nano_opt(t.hour, t.minute, t.second, t.nanos)).expect("a valid date and time");
    let zone = <chrono_tz::Tz as std::str::FromStr>::from_str(zone).ok()?;
    Some(match chrono::TimeZone::from_local_datetime(&zone, &naive) {
        chrono::LocalResult::Single(d) => Resolution::Single(Instant { seconds: d.timestamp(), nanos: d.timestamp_subsec_nanos() }),
        chrono::LocalResult::Ambiguous(_, _) => Resolution::Ambiguous,
        chrono::LocalResult::None => Resolution::Missing,
    })
}

/// Reads a wall-clock time in the Mac's current time zone
/// (`Local.from_local_datetime`); the outcome depends on the machine's
/// zone settings, so nothing is stated of it beyond chrono's range.
#[verifier::external_body]
fn resolve_in_local(t: &CivilDateTime) -> (r: Resolution)
    requires
        valid_datetime(*t),
    ensures
        r matches Resolution::Single(i) ==> in_chrono_range(i),
{
    let naive = chrono::NaiveDate::from_ymd_opt(t.date.year, t.date.month, t.date.day).and_then(
        |d| d.and_hms_nano_opt(t.hour, t.minute, t.second, t.nanos),
    ).expect("chrono holds every valid date and time");
    match chrono::TimeZone::from_local_datetime(&chrono::Local, &naive) {
        chrono::LocalResult::Single(d) => Resolution::Single(
            Instant { seconds: d.timestamp(), nanos: d.timestamp_subsec_nanos() },
        ),
        chrono::LocalResult::Ambiguous(_, _) => Resolution::Ambiguous,
        chrono::LocalResult::None => Resolution::Missing,
    }
}

/// Today's date on the Mac's clock (`Local::now().date_naive()`); which
/// date depends on the time and the machine, so only that chrono holds it is
/// stated.
#[verifier::external_body]
fn local_today() -> (r: CivilDate)
    ensures
        valid_date(r),
{
    let d = chrono::Local::now().date_naive();
    CivilDate { year: chrono::Datelike::year(&d), month: chrono::Datelike::month(&d), day: chrono::Datelike::day(&d) }
}

/// The RFC 3339 text of an instant in UTC (`DateTime::<Utc>::to_rfc3339`);
/// empty for a count chrono cannot represent.
#[verifier::external_body]
pub fn utc_datetime(datetime: Instant) -> (r: String)
    ensures
        r@ == utc_rfc3339_text(datetime),
{
    chrono::DateTime::from_timestamp(datetime.seconds, datetime.nanos).map(|d| d.to_rfc3339())
        .unwrap_or_default()
}

/// The RFC 3339 text of an instant in a named IANA zone.
pub uninterp spec fn zone_rfc3339_text(i: Instant, zone: Seq<char>) -> Seq<char>;

/// The RFC 3339 text of an instant in the IANA zone of that name (the zone
/// looked up with `<Tz as FromStr>::from_str`, then `with_timezone` and
/// `to_rfc3339`); `None` for a name chrono-tz does not know, empty for a
/// count chrono cannot represent.
#[verifier::external_body]
fn rfc3339_in_zone(datetime: Instant, zone: &str) -> (r: Option<String>)
    ensures
        r is Some == is_iana_zone(zone@),
        r matches Some(t) ==> t@ == zone_rfc3339_text(datetime, zone@),
{
    <chrono_tz::Tz as std::str::FromStr>::from_str(zone).ok().map(
        |z| chrono::DateTime::from_timestamp(datetime.seconds, datetime.nanos).map(
            |d| d.with_timezone(&z).to_rfc3339(),
        ).unwrap_or_default(),
    )
}

/// The message for a name that is not an IANA time zone.
pub open spec fn unknown_zone_text(name: Seq<char>) -> Seq<char> {
    "unknown IANA time zone: "@ + name
}

/// Accepts an IANA time zone name.
pub fn validate_time_zone(time_zone: &str) -> (r: Result<chrono_tz::Tz, String>)
    ensures
        r is Ok == is_iana_zone(time_zone@),
        r matches Err(m) ==> m@ == unknown_zone_text(time_zone@),
{
    match lookup_zone(time_zone) {
        Some(zone) => Ok(zone),
        None => Err(joined("unknown IANA time zone: ", time_zone)),
    }
}

/// The instant rendered in an IANA zone; fails only for an unknown zone name.
pub fn datetime_in_time_zone(datetime: Instant, time_zone: &str) -> (r: Result<String, String>)
    ensures
        r is Ok == is_iana_zone(time_zone@),
        r matches Err(m) ==> m@ == unknown_zone_text(time_zone@),
        r matches Ok(t) ==> t@ == zone_rfc3339_text(datetime, time_zone@),
{
    match rfc3339_in_zone(datetime, time_zone) {
        Some(t) => Ok(t),
        None => Err(joined("unknown IANA time zone: ", time_zone)),
    }
}

/// The messages for wall-clock times that a zone cannot place.
pub open spec fn ambiguous_in_zone_text(zone: Seq<char>) -> Seq<char> {
    "datetime is ambiguous in time zone "@ + zone + "; include an explicit UTC offset"@
}

pub open spec fn missing_in_zone_text(zone: Seq<char>) -> Seq<char> {
    "datetime does not exist in time zone "@ + zone
}

pub open spec fn ambiguous_local_text() -> Seq<char> {
    "local datetime is ambiguous; include an explicit UTC offset"@
}

pub open spec fn missing_local_text() -> Seq<char> {
    "local datetime does not exist in the current timezone"@
}

/// The message for text that no accepted form reads.
pub open spec fn unreadable_datetime_text() -> Seq<char> {
    "expected YYYY-MM-DD, YYYY-MM-DDTHH:MM, or RFC3339 datetime"@
}

/// The message when the day after a date cannot be formed.
pub open spec fn end_date_text() -> Seq<char> {
    "failed to calculate end date"@
}

/// What a zone's placing of a wall-clock time gives: its one instant, or
/// the error for a repeated or a skipped time.
pub open spec fn zone_outcome(res: Resolution, zone: Seq<char>, r: Result<Instant, String>) -> bool {
    match res {
        Resolution::Single(i) => r == Ok::<Instant, String>(i),
        Resolution::Ambiguous => r is Err && r->Err_0@ == ambiguous_in_zone_text(zone),
        Resolution::Missing => r is Err && r->Err_0@ == missing_in_zone_text(zone),
    }
}

/// Places a wall-clock time: in the Mac's zone without a zone name, else in
/// the named IANA zone. Ambiguous and skipped times are refused.
fn datetime_in_zone(datetime: &CivilDateTime, time_zone: Option<&str>) -> (r: Result<Instant, String>)
    requires
        valid_datetime(*datetime),
    ensures
        time_zone is Some && !is_iana_zone(time_zone->Some_0@) ==> r is Err && r->Err_0@
            == unknown_zone_text(time_zone->Some_0@),
        time_zone is Some && is_iana_zone(time_zone->Some_0@) ==> zone_outcome(
            zone_resolution(*datetime, time_zone->Some_0@),
            time_zone->Some_0@,
            r,
        ),
        r matches Err(m) ==> match time_zone {
            Some(z) => m@ == unknown_zone_text(z@) || m@ == ambiguous_in_zone_text(z@) || m@
                == missing_in_zone_text(z@),
            None => m@ == ambiguous_local_text() || m@ == missing_local_text(),
        },
        r matches Ok(i) ==> in_chrono_range(i),
{
    match time_zone {
        None => match resolve_in_local(datetime) {
            Resolution::Single(i) => Ok(i),
            Resolution::Ambiguous => Err(
                text_of("local datetime is ambiguous; include an explicit UTC offset"),
            ),
            Resolution::Missing => Err(text_of("local datetime does not exist in the current timezone")),
        },
        Some(name) => match resolve_in_zone(datetime, name) {
            None => Err(joined("unknown IANA time zone: ", name)),
            Some(Resolution::Single(i)) => Ok(i),
            Some(Resolution::Ambiguous) => {
                let mut m = joined("datetime is ambiguous in time zone ", name);
                m.append("; include an explicit UTC offset");
                Err(m)
            },
            Some(Resolution::Missing) => Err(joined("datetime does not exist in time zone ", name)),
        },
    }
}

/// The naive formats tried, in order, after RFC 3339.
pub open spec fn naive_format(k: int) -> Seq<char> {
    if k == 0 {
        "%Y-%m-%dT%H:%M:%S"@
    } else if k == 1 {
        "%Y-%m-%dT%H:%M"@
    } else if k == 2 {
        "%Y-%m-%d %H:%M:%S"@
    } else {
        "%Y-%m-%d %H:%M"@
    }
}

/// Some naive format reads the text.
pub open spec fn some_naive_format(text: Seq<char>) -> bool {
    exists|k: int| 0 <= k < 4 && naive_parses(text, #[trigger] naive_format(k))
}

/// What the first naive format that reads the text gives.
pub open spec fn first_naive_fields(text: Seq<char>) -> Option<CivilDateTime> {
    if naive_fields_of(text, naive_format(0)) is Some {
        naive_fields_of(text, naive_format(0))
    } else if naive_fields_of(text, naive_format(1)) is Some {
        naive_fields_of(text, naive_format(1))
    } else if naive_fields_of(text, naive_format(2)) is Some {
        naive_fields_of(text, naive_format(2))
    } else {
        naive_fields_of(text, naive_format(3))
    }
}

/// The first naive format that reads the text.
fn first_naive(text: &str) -> (r: Option<CivilDateTime>)
    ensures
        (r is Some) == some_naive_format(text@),
        r == first_naive_fields(text@),
        r matches Some(t) ==> valid_datetime(t),
{
    if let Some(d) = parse_naive(text, "%Y-%m-%dT%H:%M:%S") {
        assert(naive_parses(text@, naive_format(0)));
        return Some(d);
    }
    if let Some(d) = parse_naive(text, "%Y-%m-%dT%H:%M") {
        assert(naive_parses(text@, naive_format(1)));
        return Some(d);
    }
    if let Some(d) = parse_naive(text, "%Y-%m-%d %H:%M:%S") {
        assert(naive_parses(text@, naive_format(2)));
        return Some(d);
    }
    if let Some(d) = parse_naive(text, "%Y-%m-%d %H:%M") {
        assert(naive_parses(text@, naive_format(3)));
        return Some(d);
    }
    assert forall|k: int| 0 <= k < 4 implies !naive_parses(text@, #[trigger] naive_format(k)) by {
        if k == 0 {
        } else if k == 1 {
        } else if k == 2 {
        } else {
        }
    }
    None
}

/// Reads a date-time that is not a bare date: RFC 3339 (its offset wins),
/// else one of the naive formats placed in the zone.
fn parse_datetime(input: &str, time_zone: Option<&str>) -> (r: Result<Instant, String>)
    ensures
        rfc3339_instant(input@) matches Some(i) ==> r == Ok::<Instant, String>(i),
        rfc3339_instant(input@) is None && !some_naive_format(input@) ==> r is Err && r->Err_0@
            == unreadable_datetime_text(),
        rfc3339_instant(input@) is None && some_naive_format(input@) && time_zone is Some
            && !is_iana_zone(time_zone->Some_0@) ==> r is Err && r->Err_0@ == unknown_zone_text(
            time_zone->Some_0@,
        ),
        rfc3339_instant(input@) is None && some_naive_format(input@) && time_zone is Some && is_iana_zone(
            time_zone->Some_0@,
        ) ==> zone_outcome(
            zone_resolution(first_naive_fields(input@)->Some_0, time_zone->Some_0@),
            time_zone->Some_0@,
            r,
        ),
        r matches Ok(i) ==> in_chrono_range(i),
{
    if let Some(i) = parse_rfc3339(input) {
        return Ok(i);
    }
    match first_naive(input) {
        Some(naive) => datetime_in_zone(&naive, time_zone),
        None => Err(text_of("expected YYYY-MM-DD, YYYY-MM-DDTHH:MM, or RFC3339 datetime")),
    }
}

/// Midnight of a date placed in the zone.
fn start_of_day(date: CivilDate, time_zone: Option<&str>) -> (r: Result<Instant, String>)
    requires
        valid_date(date),
    ensures
        time_zone is Some && is_iana_zone(time_zone->Some_0@) ==> zone_outcome(
            zone_resolution(midnight_at(date), time_zone->Some_0@),
            time_zone->Some_0@,
            r,
        ),
        time_zone is Some && !is_iana_zone(time_zone->Some_0@) ==> r is Err && r->Err_0@
            == unknown_zone_text(time_zone->Some_0@),
        time_zone is None && r is Err ==> r->Err_0@ == ambiguous_local_text() || r->Err_0@
            == missing_local_text(),
        r matches Ok(i) ==> in_chrono_range(i),
{
    let start = midnight_of(date);
    datetime_in_zone(&start, time_zone)
}

/// What reading the start of a range can give: an RFC 3339 input (not a
/// bare date) is its instant; unreadable text and an unknown zone name are
/// refused; a naive input, or a bare date's midnight, is placed by the named
/// zone's rules (by the Mac's zone when no name is given, which is left
/// open).
pub open spec fn start_parse_outcome(input: Seq<char>, time_zone: Option<Seq<char>>, r: Result<Instant, String>) -> bool {
    &&& !is_calendar_date(input) && rfc3339_instant(input) is Some ==> r == Ok::<Instant, String>(
        rfc3339_instant(input)->Some_0,
    )
    &&& !is_calendar_date(input) && rfc3339_instant(input) is None && !some_naive_format(input) ==> r is Err
        && r->Err_0@ == unreadable_datetime_text()
    &&& (is_calendar_date(input) || rfc3339_instant(input) is None && some_naive_format(input))
        && time_zone is Some && !is_iana_zone(time_zone->Some_0) ==> r is Err && r->Err_0@ == unknown_zone_text(
        time_zone->Some_0,
    )
    &&& is_calendar_date(input) && time_zone is Some && is_iana_zone(time_zone->Some_0) ==> zone_outcome(
        zone_resolution(midnight_at(calendar_date_of(input)->Some_0), time_zone->Some_0),
        time_zone->Some_0,
        r,
    )
    &&& !is_calendar_date(input) && rfc3339_instant(input) is None && some_naive_format(input) && time_zone is Some
        && is_iana_zone(time_zone->Some_0) ==> zone_outcome(
        zone_resolution(first_naive_fields(input)->Some_0, time_zone->Some_0),
        time_zone->Some_0,
        r,
    )
    &&& r matches Ok(i) ==> in_chrono_range(i)
}

/// What reading the end of a range can give: as for the start, except that
/// a bare date's end cannot be formed past chrono's last date.
pub open spec fn end_parse_outcome(input: Seq<char>, time_zone: Option<Seq<char>>, r: Result<Instant, String>) -> bool {
    &&& !is_calendar_date(input) && rfc3339_instant(input) is Some ==> r == Ok::<Instant, String>(
        rfc3339_instant(input)->Some_0,
    )
    &&& !is_calendar_date(input) && rfc3339_instant(input) is None && !some_naive_format(input) ==> r is Err
        && r->Err_0@ == unreadable_datetime_text()
    &&& rfc3339_instant(input) is None && some_naive_format(input) && !is_calendar_date(input)
        && time_zone is Some && !is_iana_zone(time_zone->Some_0) ==> r is Err && r->Err_0@ == unknown_zone_text(
        time_zone->Some_0,
    )
    &&& is_calendar_date(input) && time_zone is Some && !is_iana_zone(time_zone->Some_0) ==> r is Err && (
        r->Err_0@ == unknown_zone_text(time_zone->Some_0) || r->Err_0@ == end_date_text())
    &&& is_calendar_date(input) && next_date_of(calendar_date_of(input)->Some_0) is None ==> r is Err
        && r->Err_0@ == end_date_text()
    &&& is_calendar_date(input) && next_date_of(calendar_date_of(input)->Some_0) is Some && time_zone is Some
        && !is_iana_zone(time_zone->Some_0) ==> r is Err && r->Err_0@ == unknown_zone_text(time_zone->Some_0)
    &&& is_calendar_date(input) && next_date_of(calendar_date_of(input)->Some_0) is Some && time_zone is Some
        && is_iana_zone(time_zone->Some_0) ==> zone_outcome(
        zone_resolution(midnight_at(next_date_of(calendar_date_of(input)->Some_0)->Some_0), time_zone->Some_0),
        time_zone->Some_0,
        r,
    )
    &&& !is_calendar_date(input) && rfc3339_instant(input) is None && some_naive_format(input) && time_zone is Some
        && is_iana_zone(time_zone->Some_0) ==> zone_outcome(
        zone_resolution(first_naive_fields(input)->Some_0, time_zone->Some_0),
        time_zone->Some_0,
        r,
    )
    &&& r matches Ok(i) ==> in_chrono_range(i)
}

/// A zone name as text.
pub open spec fn zone_text(time_zone: Option<&str>) -> Option<Seq<char>> {
    match time_zone {
        Some(z) => Some(z@),
        None => None,
    }
}

/// Reads the start of a range: a bare date means its midnight; otherwise as
/// `parse_datetime`. A zone name only affects naive inputs.
pub fn parse_start_datetime_in_time_zone(input: &str, time_zone: Option<&str>) -> (r: Result<
    Instant,
    String,
>)
    ensures
        start_parse_outcome(input@, zone_text(time_zone), r),
{
    if let Some(date) = parse_calendar_date(input) {
        return start_of_day(date, time_zone);
    }
    parse_datetime(input, time_zone)
}

/// Reads the end of a range: a bare date means the midnight that ends it
/// (the next day's start); otherwise as `parse_datetime`.
pub fn parse_end_datetime_in_time_zone(input: &str, time_zone: Option<&str>) -> (r: Result<
    Instant,
    String,
>)
    ensures
        end_parse_outcome(input@, zone_text(time_zone), r),
{
    if let Some(date) = parse_calendar_date(input) {
        let next = match next_date(date) {
            Some(next) => next,
            None => return Err(text_of("failed to calculate end date")),
        };
        return start_of_day(next, time_zone);
    }
    parse_datetime(input, time_zone)
}

/// The start of a range in the Mac's zone.
pub fn parse_start_datetime(input: &str) -> (r: Result<Instant, String>)
    ensures
        start_parse_outcome(input@, None, r),
{
    parse_start_datetime_in_time_zone(input, None)
}

/// The end of a range in the Mac's zone.
pub fn parse_end_datetime(input: &str) -> (r: Result<Instant, String>)
    ensures
        end_parse_outcome(input@, None, r),
{
    parse_end_datetime_in_time_zone(input, None)
}

/// The message when the day after today cannot be formed.
pub open spec fn tomorrow_text() -> Seq<char> {
    "failed to calculate tomorrow"@
}

/// The start of today and of tomorrow on the Mac's clock. Which day that is
/// depends on the clock and the machine's zone, so of a success only the
/// range of its instants is stated. It fails only when the day after today
/// cannot be formed, or when a midnight is skipped or repeated in the Mac's
/// zone; whether that happens depends on the clock and the zone's rules.
pub fn today_range() -> (r: Result<(Instant, Instant), String>)
    ensures
        r matches Ok(range) ==> in_chrono_range(range.0) && in_chrono_range(range.1),
        r matches Err(m) ==> m@ == tomorrow_text() || m@ == ambiguous_local_text() || m@
            == missing_local_text(),
{
    let today = local_today();
    let tomorrow = match next_date(today) {
        Some(t) => t,
        None => return Err(text_of("failed to calculate tomorrow")),
    };
    let start = resolve_in_local(&midnight_of(today));
    let end = resolve_in_local(&midnight_of(tomorrow));
    local_day_range(start, end)
}

/// The message of a local wall-clock time the Mac's zone cannot place.
pub open spec fn local_resolution_error(res: Resolution) -> Seq<char> {
    match res {
        Resolution::Ambiguous => ambiguous_local_text(),
        _ => missing_local_text(),
    }
}

/// The range of a day from how the Mac's zone placed the midnight that
/// starts it and the one that ends it: both instants when each is placed
/// once, else the error of the first that is not.
pub fn local_day_range(start: Resolution, end: Resolution) -> (r: Result<(Instant, Instant), String>)
    requires
        start matches Resolution::Single(s) ==> in_chrono_range(s),
        end matches Resolution::Single(e) ==> in_chrono_range(e),
    ensures
        match (start, end) {
            (Resolution::Single(s), Resolution::Single(e)) => r == Ok::<(Instant, Instant), String>((s, e)),
            (Resolution::Single(_), _) => r is Err && r->Err_0@ == local_resolution_error(end),
            _ => r is Err && r->Err_0@ == local_resolution_error(start),
        },
        r matches Ok(range) ==> in_chrono_range(range.0) && in_chrono_range(range.1),
{
    let s = match start {
        Resolution::Single(s) => s,
        Resolution::Ambiguous => return Err(text_of("local datetime is ambiguous; include an explicit UTC offset")),
        Resolution::Missing => return Err(text_of("local datetime does not exist in the current timezone")),
    };
    let e = match end {
        Resolution::Single(e) => e,
        Resolution::Ambiguous => return Err(text_of("local datetime is ambiguous; include an explicit UTC offset")),
        Resolution::Missing => return Err(text_of("local datetime does not exist in the current timezone")),
    };
    Ok((s, e))
}

/// Whether the text is a bare `%Y-%m-%d` date.
pub fn is_date_only(text: &str) -> (r: bool)
    ensures
        r == is_calendar_date(text@),
{
    parse_calendar_date(text).is_some()
}

} // verus!

verus! {

/// The RFC 3339 text of an instant in the Mac's current time zone
/// (`with_timezone(&Local)` then `to_rfc3339`). It depends on the
/// machine's zone settings, so nothing is stated of it.
#[verifier::external_body]
pub fn local_rfc3339(datetime: Instant) -> String {
    chrono::DateTime::from_timestamp(datetime.seconds, datetime.nanos).map(
        |d| d.with_timezone(&chrono::Local).to_rfc3339(),
    ).unwrap_or_default()
}

/// The whole seconds from `start` to `end` (`TimeDelta::num_seconds`,
/// rounding toward zero).
pub open spec fn whole_seconds_between(start: Instant, end: Instant) -> int {
    let d = total_nanos(end) - total_nanos(start);
    if d >= 0 {
        d / 1_000_000_000
    } else {
        -((-d) / 1_000_000_000)
    }
}

/// Instants in chrono's range of about 262,000 years either side of 1970.
pub open spec fn in_chrono_range(i: Instant) -> bool {
    -8_400_000_000_000 <= i.seconds <= 8_400_000_000_000
}

/// The whole seconds from `start` to `end`.
pub fn seconds_between(start: Instant, end: Instant) -> (r: i64)
    requires
        in_chrono_range(start),
        in_chrono_range(end),
    ensures
        r == whole_seconds_between(start, end),
{
    let a: i128 = (start.seconds as i128) * 1_000_000_000 + start.nanos as i128;
    let b: i128 = (end.seconds as i128) * 1_000_000_000 + end.nanos as i128;
    let d = b - a;
    let q: i128 = if d >= 0 {
        d / 1_000_000_000
    } else {
        -((-d) / 1_000_000_000)
    };
    q as i64
}

} // verus!
