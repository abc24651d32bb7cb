//! Event recurrence rules: validation and normalization of the recurrence
//! options of a new event, and the comparison that decides whether an
//! existing event carries the same rule.

use crate::cli::{EventRecurrenceArgs, EventRepeatArg, EventWeekdayArg};
use crate::dates::{
    Instant, instant_before, is_before, is_calendar_date, parse_rfc3339,
    parse_start_datetime_in_time_zone, rfc3339_instant, utc_datetime, utc_rfc3339_text,
};
use crate::eventkit::copy_opt_string;
use crate::models::{EventRecurrenceEndReport, EventRecurrenceReport, EventRecurrenceWeekdayReport};
use crate::ordered::{
    ints_equal, same_values, sorted_unique, sorted_unique_is_unique, sorted_unique_of,
    sorted_unique_weekdays, sorted_unique_weekdays_is_unique, sorted_unique_weekdays_of,
    weekdays_equal,
};
use crate::text::{push_int, text_of};
use vstd::prelude::*;
use vstd::string::*;

verus! {

/// No recurrence option is set.
pub open spec fn recurrence_args_empty(args: EventRecurrenceArgs) -> bool {
    &&& args.repeat is None
    &&& args.interval is None
    &&& args.weekdays@.len() == 0
    &&& args.month_days@.len() == 0
    &&& args.count is None
    &&& args.until is None
}

/// Whether no recurrence option is set.
pub fn event_recurrence_args_is_empty(args: &EventRecurrenceArgs) -> (r: bool)
    ensures
        r == recurrence_args_empty(*args),
{
    args.repeat.is_none() && args.interval.is_none() && args.weekdays.len() == 0
        && args.month_days.len() == 0 && args.count.is_none() && args.until.is_none()
}

/// EventKit's weekday numbering: Sunday is 1, Saturday is 7.
pub open spec fn weekday_number(value: EventWeekdayArg) -> isize {
    match value {
        EventWeekdayArg::Sunday => 1,
        EventWeekdayArg::Monday => 2,
        EventWeekdayArg::Tuesday => 3,
        EventWeekdayArg::Wednesday => 4,
        EventWeekdayArg::Thursday => 5,
        EventWeekdayArg::Friday => 6,
        EventWeekdayArg::Saturday => 7,
    }
}

/// The EventKit number of a weekday.
pub fn event_weekday_number(value: EventWeekdayArg) -> (r: isize)
    ensures
        r == weekday_number(value),
{
    match value {
        EventWeekdayArg::Sunday => 1,
        EventWeekdayArg::Monday => 2,
        EventWeekdayArg::Tuesday => 3,
        EventWeekdayArg::Wednesday => 4,
        EventWeekdayArg::Thursday => 5,
        EventWeekdayArg::Friday => 6,
        EventWeekdayArg::Saturday => 7,
    }
}

/// The name a rule's frequency is reported by.
pub open spec fn frequency_text(f: EventRepeatArg) -> Seq<char> {
    match f {
        EventRepeatArg::Daily => "daily"@,
        EventRepeatArg::Weekly => "weekly"@,
        EventRepeatArg::Monthly => "monthly"@,
        EventRepeatArg::Yearly => "yearly"@,
    }
}

fn frequency_name(f: EventRepeatArg) -> (r: String)
    ensures
        r@ == frequency_text(f),
{
    match f {
        EventRepeatArg::Daily => text_of("daily"),
        EventRepeatArg::Weekly => text_of("weekly"),
        EventRepeatArg::Monthly => text_of("monthly"),
        EventRepeatArg::Yearly => text_of("yearly"),
    }
}

/// The whole-second UTC text EventKit stores a recurrence end as; texts that
/// are not RFC 3339 are left as they are.
pub open spec fn canonical_end_text(d: Seq<char>) -> Seq<char> {
    match rfc3339_instant(d) {
        Some(i) => utc_rfc3339_text(Instant { seconds: i.seconds, nanos: 0 }),
        None => d,
    }
}

/// A recurrence end truncated to the whole second and written in UTC. The
/// only failure is a text that is not RFC 3339.
pub fn canonical_eventkit_recurrence_end_utc(value: &str) -> (r: Result<String, String>)
    ensures
        match rfc3339_instant(value@) {
            Some(i) => r is Ok && r->Ok_0@ == utc_rfc3339_text(Instant { seconds: i.seconds, nanos: 0 }),
            None => r is Err && r->Err_0@ == "date must be RFC3339"@,
        },
{
    match parse_rfc3339(value) {
        Some(i) => Ok(utc_datetime(Instant { seconds: i.seconds, nanos: 0 })),
        None => Err(text_of("date must be RFC3339")),
    }
}

/// The values an optional list stands for: absent means none.
pub open spec fn list_or_empty<T>(o: Option<Vec<T>>) -> Seq<T> {
    match o {
        Some(v) => v@,
        None => Seq::empty(),
    }
}

/// `after` is the normal form of `before`: absent when `before` holds no
/// value, else its values in increasing order, each once.
pub open spec fn normalized_ints(after: Option<Vec<i32>>, before: Option<Vec<i32>>) -> bool {
    match after {
        None => list_or_empty(before).len() == 0,
        Some(v) => v@.len() > 0 && sorted_unique_of(v@, list_or_empty(before)),
    }
}

/// The weekday form of `normalized_ints`.
pub open spec fn normalized_weekdays(
    after: Option<Vec<EventRecurrenceWeekdayReport>>,
    before: Option<Vec<EventRecurrenceWeekdayReport>>,
) -> bool {
    match after {
        None => list_or_empty(before).len() == 0,
        Some(v) => v@.len() > 0 && sorted_unique_weekdays_of(v@, list_or_empty(before)),
    }
}

/// Sorts an optional list, drops repeated values, and drops the list when it
/// ends up empty.
pub fn normalize_optional_vec(values: &mut Option<Vec<i32>>)
    ensures
        normalized_ints(*final(values), *old(values)),
{
    let normal = match values {
        Some(v) => {
            let s = sorted_unique(v);
            if s.len() == 0 {
                assert(v@.len() == 0) by {
                    if v@.len() > 0 {
                        assert(v@.contains(v@[0]));
                    }
                }
                None
            } else {
                Some(s)
            }
        },
        None => None,
    };
    *values = normal;
}

/// `normalize_optional_vec` for weekday entries.
pub fn normalize_optional_weekdays(values: &mut Option<Vec<EventRecurrenceWeekdayReport>>)
    ensures
        normalized_weekdays(*final(values), *old(values)),
{
    let normal = match values {
        Some(v) => {
            let s = sorted_unique_weekdays(v);
            if s.len() == 0 {
                assert(v@.len() == 0) by {
                    if v@.len() > 0 {
                        assert(v@.contains(v@[0]));
                    }
                }
                None
            } else {
                Some(s)
            }
        },
        None => None,
    };
    *values = normal;
}

/// The first day of the week a rule is compared by: EventKit reports Monday
/// (2) for a weekly rule with an interval above one when none was set, and
/// the field means nothing for other rules.
pub open spec fn canonical_first_day(r: EventRecurrenceReport) -> isize {
    if r.frequency@ == "weekly"@ && r.interval > 1 {
        if r.first_day_of_week == 0 {
            2
        } else {
            r.first_day_of_week
        }
    } else {
        0
    }
}

/// The end date a rule is compared by.
pub open spec fn canonical_end_date(o: Option<String>) -> Option<Seq<char>> {
    match o {
        Some(d) => Some(canonical_end_text(d@)),
        None => None,
    }
}

/// `c` is the canonical form of rule `r`.
pub open spec fn is_canonical_of(c: EventRecurrenceReport, r: EventRecurrenceReport) -> bool {
    &&& c.frequency == r.frequency
    &&& c.interval == r.interval
    &&& c.first_day_of_week == canonical_first_day(r)
    &&& c.end.kind == r.end.kind
    &&& c.end.occurrence_count == r.end.occurrence_count
    &&& match c.end.end_date {
        Some(d) => canonical_end_date(r.end.end_date) == Some(d@),
        None => r.end.end_date is None,
    }
    &&& normalized_weekdays(c.days_of_week, r.days_of_week)
    &&& normalized_ints(c.days_of_month, r.days_of_month)
    &&& normalized_ints(c.months_of_year, r.months_of_year)
    &&& normalized_ints(c.weeks_of_year, r.weeks_of_year)
    &&& normalized_ints(c.days_of_year, r.days_of_year)
    &&& normalized_ints(c.set_positions, r.set_positions)
}

/// Two rules mean the same recurrence: equal frequency, interval, end and
/// comparable first weekday, and the same values in every list (an absent
/// list and an empty one agree; order and repetition do not matter).
pub open spec fn rules_agree(a: EventRecurrenceReport, b: EventRecurrenceReport) -> bool {
    &&& a.frequency@ == b.frequency@
    &&& a.interval == b.interval
    &&& canonical_first_day(a) == canonical_first_day(b)
    &&& a.end.kind@ == b.end.kind@
    &&& a.end.occurrence_count == b.end.occurrence_count
    &&& canonical_end_date(a.end.end_date) == canonical_end_date(b.end.end_date)
    &&& same_values(list_or_empty(a.days_of_week), list_or_empty(b.days_of_week))
    &&& same_values(list_or_empty(a.days_of_month), list_or_empty(b.days_of_month))
    &&& same_values(list_or_empty(a.months_of_year), list_or_empty(b.months_of_year))
    &&& same_values(list_or_empty(a.weeks_of_year), list_or_empty(b.weeks_of_year))
    &&& same_values(list_or_empty(a.days_of_year), list_or_empty(b.days_of_year))
    &&& same_values(list_or_empty(a.set_positions), list_or_empty(b.set_positions))
}

/// A copy of an optional integer list.
fn copy_opt_ints(o: &Option<Vec<i32>>) -> (r: Option<Vec<i32>>)
    ensures
        list_or_empty(r) == list_or_empty(*o),
        r is Some == o is Some,
{
    match o {
        Some(v) => Some(v.clone()),
        None => None,
    }
}

/// A copy of an optional weekday list.
fn copy_opt_weekdays(o: &Option<Vec<EventRecurrenceWeekdayReport>>) -> (r: Option<
    Vec<EventRecurrenceWeekdayReport>,
>)
    ensures
        list_or_empty(r) == list_or_empty(*o),
        r is Some == o is Some,
{
    match o {
        Some(v) => {
            let mut out: Vec<EventRecurrenceWeekdayReport> = Vec::new();
            let mut i: usize = 0;
            while i < v.len()
                invariant
                    i <= v@.len(),
                    out@ == v@.take(i as int),
                decreases v.len() - i,
            {
                out.push(v[i]);
                assert(out@ =~= v@.take(i + 1));
                i = i + 1;
            }
            assert(v@.take(v.len() as int) =~= v@);
            Some(out)
        },
        None => None,
    }
}

proof fn lemma_normalized_ints_same(a: Option<Vec<i32>>, b: Option<Vec<i32>>, oa: Option<Vec<i32>>, ob: Option<Vec<i32>>)
    requires
        normalized_ints(a, oa),
        normalized_ints(b, ob),
    ensures
        (list_or_empty(a) == list_or_empty(b)) == same_values(list_or_empty(oa), list_or_empty(ob)),
{
    let la = list_or_empty(a);
    let lb = list_or_empty(b);
    let loa = list_or_empty(oa);
    let lob = list_or_empty(ob);
    if loa.len() > 0 {
        assert(loa.contains(loa[0]));
    }
    if lob.len() > 0 {
        assert(lob.contains(lob[0]));
    }
    if la.len() > 0 {
        assert(la.contains(la[0]));
    }
    if lb.len() > 0 {
        assert(lb.contains(lb[0]));
    }
    if a is Some && b is Some {
        if same_values(loa, lob) {
            sorted_unique_is_unique(la, lb);
        }
    }
    if same_values(loa, lob) && a is None && b is Some {
        assert(lb.contains(lb[0]));
    }
    if same_values(loa, lob) && a is Some && b is None {
        assert(la.contains(la[0]));
    }
}

proof fn lemma_normalized_weekdays_same(
    a: Option<Vec<EventRecurrenceWeekdayReport>>,
    b: Option<Vec<EventRecurrenceWeekdayReport>>,
    oa: Option<Vec<EventRecurrenceWeekdayReport>>,
    ob: Option<Vec<EventRecurrenceWeekdayReport>>,
)
    requires
        normalized_weekdays(a, oa),
        normalized_weekdays(b, ob),
    ensures
        (list_or_empty(a) == list_or_empty(b)) == same_values(list_or_empty(oa), list_or_empty(ob)),
{
    let la = list_or_empty(a);
    let lb = list_or_empty(b);
    let loa = list_or_empty(oa);
    let lob = list_or_empty(ob);
    if loa.len() > 0 {
        assert(loa.contains(loa[0]));
    }
    if lob.len() > 0 {
        assert(lob.contains(lob[0]));
    }
    if la.len() > 0 {
        assert(la.contains(la[0]));
    }
    if lb.len() > 0 {
        assert(lb.contains(lb[0]));
    }
    if a is Some && b is Some {
        if same_values(loa, lob) {
            sorted_unique_weekdays_is_unique(la, lb);
        }
    }
}

/// The canonical form of a rule: the comparable first weekday, the end date
/// in whole UTC seconds, and every list sorted without repetition.
pub fn canonical_recurrence(rule: &EventRecurrenceReport) -> (c: EventRecurrenceReport)
    ensures
        is_canonical_of(c, *rule),
{
    let first_day_of_week = if str_is_weekly(&rule.frequency) && rule.interval > 1 {
        if rule.first_day_of_week == 0 {
            2
        } else {
            rule.first_day_of_week
        }
    } else {
        0
    };
    let end_date = match &rule.end.end_date {
        Some(d) => match canonical_eventkit_recurrence_end_utc(d.as_str()) {
            Ok(v) => Some(v),
            Err(_) => Some(d.clone()),
        },
        None => None,
    };
    let mut days_of_week = copy_opt_weekdays(&rule.days_of_week);
    let mut days_of_month = copy_opt_ints(&rule.days_of_month);
    let mut months_of_year = copy_opt_ints(&rule.months_of_year);
    let mut weeks_of_year = copy_opt_ints(&rule.weeks_of_year);
    let mut days_of_year = copy_opt_ints(&rule.days_of_year);
    let mut set_positions = copy_opt_ints(&rule.set_positions);
    normalize_optional_weekdays(&mut days_of_week);
    normalize_optional_vec(&mut days_of_month);
    normalize_optional_vec(&mut months_of_year);
    normalize_optional_vec(&mut weeks_of_year);
    normalize_optional_vec(&mut days_of_year);
    normalize_optional_vec(&mut set_positions);
    EventRecurrenceReport {
        frequency: rule.frequency.clone(),
        interval: rule.interval,
        first_day_of_week,
        end: EventRecurrenceEndReport {
            kind: rule.end.kind.clone(),
            occurrence_count: rule.end.occurrence_count,
            end_date,
        },
        days_of_week,
        days_of_month,
        months_of_year,
        weeks_of_year,
        days_of_year,
        set_positions,
    }
}

/// Whether a frequency name is `weekly`.
fn str_is_weekly(frequency: &String) -> (r: bool)
    ensures
        r == (frequency@ == "weekly"@),
{
    let weekly = text_of("weekly");
    *frequency == weekly
}

/// Equality of two optional texts.
fn opt_text_equal(a: &Option<String>, b: &Option<String>) -> (r: bool)
    ensures
        r == (match a {
            Some(x) => Some(x@),
            None => None::<Seq<char>>,
        } == match b {
            Some(x) => Some(x@),
            None => None::<Seq<char>>,
        }),
{
    match (a, b) {
        (Some(x), Some(y)) => *x == *y,
        (None, None) => true,
        _ => false,
    }
}

/// Equality of two optional integer lists by contents.
fn opt_ints_equal(a: &Option<Vec<i32>>, b: &Option<Vec<i32>>) -> (r: bool)
    requires
        a is Some ==> list_or_empty(*a).len() > 0,
        b is Some ==> list_or_empty(*b).len() > 0,
    ensures
        r == (list_or_empty(*a) == list_or_empty(*b)),
{
    match (a, b) {
        (Some(x), Some(y)) => ints_equal(x, y),
        (None, None) => true,
        (Some(x), None) => {
            assert(list_or_empty(*a).len() > 0);
            false
        },
        (None, Some(y)) => {
            assert(list_or_empty(*b).len() > 0);
            false
        },
    }
}

/// Equality of two optional weekday lists by contents.
fn opt_weekdays_equal(
    a: &Option<Vec<EventRecurrenceWeekdayReport>>,
    b: &Option<Vec<EventRecurrenceWeekdayReport>>,
) -> (r: bool)
    requires
        a is Some ==> list_or_empty(*a).len() > 0,
        b is Some ==> list_or_empty(*b).len() > 0,
    ensures
        r == (list_or_empty(*a) == list_or_empty(*b)),
{
    match (a, b) {
        (Some(x), Some(y)) => weekdays_equal(x, y),
        (None, None) => true,
        (Some(x), None) => {
            assert(list_or_empty(*a).len() > 0);
            false
        },
        (None, Some(y)) => {
            assert(list_or_empty(*b).len() > 0);
            false
        },
    }
}

/// Whether two rules mean the same recurrence, compared in canonical form.
pub fn same_recurrence(a: &EventRecurrenceReport, b: &EventRecurrenceReport) -> (r: bool)
    ensures
        r == rules_agree(*a, *b),
{
    let ca = canonical_recurrence(a);
    let cb = canonical_recurrence(b);
    proof {
        lemma_normalized_weekdays_same(ca.days_of_week, cb.days_of_week, a.days_of_week, b.days_of_week);
        lemma_normalized_ints_same(ca.days_of_month, cb.days_of_month, a.days_of_month, b.days_of_month);
        lemma_normalized_ints_same(ca.months_of_year, cb.months_of_year, a.months_of_year, b.months_of_year);
        lemma_normalized_ints_same(ca.weeks_of_year, cb.weeks_of_year, a.weeks_of_year, b.weeks_of_year);
        lemma_normalized_ints_same(ca.days_of_year, cb.days_of_year, a.days_of_year, b.days_of_year);
        lemma_normalized_ints_same(ca.set_positions, cb.set_positions, a.set_positions, b.set_positions);
    }
    ca.frequency == cb.frequency && ca.interval == cb.interval && ca.first_day_of_week
        == cb.first_day_of_week && ca.end.kind == cb.end.kind && ca.end.occurrence_count
        == cb.end.occurrence_count && opt_text_equal(&ca.end.end_date, &cb.end.end_date)
        && opt_weekdays_equal(&ca.days_of_week, &cb.days_of_week) && opt_ints_equal(
        &ca.days_of_month,
        &cb.days_of_month,
    ) && opt_ints_equal(&ca.months_of_year, &cb.months_of_year) && opt_ints_equal(
        &ca.weeks_of_year,
        &cb.weeks_of_year,
    ) && opt_ints_equal(&ca.days_of_year, &cb.days_of_year) && opt_ints_equal(
        &ca.set_positions,
        &cb.set_positions,
    )
}

/// An existing event's rules are the requested recurrence.
pub open spec fn rules_match_spec(requested: Option<&EventRecurrenceReport>, existing: Seq<EventRecurrenceReport>) -> bool {
    match requested {
        Some(q) => existing.len() == 1 && rules_agree(existing[0], *q),
        None => existing.len() == 0,
    }
}

/// Whether an existing event's rules are the requested recurrence: a
/// requested rule needs exactly one existing rule that means the same; no
/// requested rule needs no existing rule.
pub fn recurrence_rules_match(
    requested: Option<&EventRecurrenceReport>,
    existing: &[EventRecurrenceReport],
) -> (r: bool)
    ensures
        r == rules_match_spec(requested, existing@),
{
    match requested {
        Some(requested) => existing.len() == 1 && same_recurrence(&existing[0], requested),
        None => existing.len() == 0,
    }
}

/// The interval of the requested rule (one when not given).
pub open spec fn interval_of(args: EventRecurrenceArgs) -> int {
    match args.interval {
        Some(n) => n as int,
        None => 1,
    }
}

/// A month day outside 1 through 31 and -1 through -31.
pub open spec fn month_day_invalid(v: i32) -> bool {
    v == 0 || v > 31 || v < -31
}

/// The smallest invalid month day among the requested ones.
pub open spec fn least_invalid_day(days: Seq<i32>) -> i32 {
    choose|v: i32| #[trigger] is_least_invalid_day(days, v)
}

/// `v` is an invalid requested month day and no invalid one is smaller.
pub open spec fn is_least_invalid_day(days: Seq<i32>, v: i32) -> bool {
    days.contains(v) && month_day_invalid(v) && forall|w: i32|
        days.contains(w) && month_day_invalid(w) ==> v <= w
}

/// Some requested month day is invalid.
pub open spec fn has_invalid_day(days: Seq<i32>) -> bool {
    exists|v: i32| days.contains(v) && month_day_invalid(v)
}

/// The first problem the recurrence options have on their own, in the order
/// they are checked; `None` when they are consistent.
pub open spec fn recurrence_option_error(args: EventRecurrenceArgs) -> Option<Seq<char>> {
    let f = args.repeat->Some_0;
    let weekdays = args.weekdays@.len() > 0;
    let month_days = args.month_days@.len() > 0;
    if interval_of(args) == 0 {
        Some("--repeat-interval must be greater than zero"@)
    } else if interval_of(args) > isize::MAX {
        Some("--repeat-interval is too large for EventKit"@)
    } else if args.count == Some(0usize) {
        Some("--repeat-count must be greater than zero"@)
    } else if f == EventRepeatArg::Daily && (weekdays || month_days) {
        Some("daily recurrence cannot use --repeat-weekday or --repeat-month-day"@)
    } else if f != EventRepeatArg::Monthly && month_days {
        Some("--repeat-month-day requires --repeat monthly"@)
    } else if weekdays && month_days {
        Some("--repeat-weekday and --repeat-month-day cannot be combined"@)
    } else if has_invalid_day(args.month_days@) {
        Some(
            "--repeat-month-day must be from 1 through 31 or -1 through -31: "@ + crate::text::int_text(
                least_invalid_day(args.month_days@) as int,
            ),
        )
    } else {
        None
    }
}

/// The weekday entries the requested weekdays stand for (every week).
pub open spec fn requested_weekdays(args: EventRecurrenceArgs) -> Seq<EventRecurrenceWeekdayReport> {
    Seq::new(
        args.weekdays@.len(),
        |i: int| EventRecurrenceWeekdayReport { weekday: weekday_number(args.weekdays@[i]), week_number: 0 },
    )
}

/// A recurrence end written by `parse_event_recurrence` from the options.
pub open spec fn end_from_options(end: EventRecurrenceEndReport, args: EventRecurrenceArgs) -> bool {
    match args.count {
        Some(c) => end.kind@ == "count"@ && end.occurrence_count == Some(c) && end.end_date is None,
        None => match args.until {
            Some(u) => {
                &&& rfc3339_instant(u@) is Some
                &&& end.kind@ == "date"@
                &&& end.occurrence_count is None
                &&& end.end_date is Some
                &&& end.end_date->Some_0@ == utc_rfc3339_text(
                    Instant { seconds: rfc3339_instant(u@)->Some_0.seconds, nanos: 0 },
                )
            },
            None => end.kind@ == "never"@ && end.occurrence_count is None && end.end_date is None,
        },
    }
}

/// The rule `parse_event_recurrence` builds from consistent options.
pub open spec fn rule_from_options(rule: EventRecurrenceReport, args: EventRecurrenceArgs) -> bool {
    let f = args.repeat->Some_0;
    &&& rule.frequency@ == frequency_text(f)
    &&& rule.interval == interval_of(args)
    &&& rule.first_day_of_week == if f == EventRepeatArg::Weekly && interval_of(args) > 1 {
        2isize
    } else {
        0isize
    }
    &&& end_from_options(rule.end, args)
    &&& match rule.days_of_week {
        Some(v) => args.weekdays@.len() > 0 && sorted_unique_weekdays_of(v@, requested_weekdays(args)),
        None => args.weekdays@.len() == 0,
    }
    &&& match rule.days_of_month {
        Some(v) => args.month_days@.len() > 0 && sorted_unique_of(v@, args.month_days@),
        None => args.month_days@.len() == 0,
    }
    &&& rule.months_of_year is None
    &&& rule.weeks_of_year is None
    &&& rule.days_of_year is None
    &&& rule.set_positions is None
}

/// The messages of the anchor and end checks.
pub open spec fn anchor_error_text() -> Seq<char> {
    "invalid recurrence anchor"@
}

pub open spec fn until_format_text() -> Seq<char> {
    "--repeat-until must be RFC3339 with an explicit UTC offset"@
}

pub open spec fn until_before_start_text() -> Seq<char> {
    "--repeat-until must not be before the event start"@
}

/// The requested end, truncated to the whole second, falls before the anchor.
pub open spec fn until_before(args: EventRecurrenceArgs, anchor: Instant) -> bool {
    args.count is None && args.until is Some && rfc3339_instant(args.until->Some_0@) is Some
        && instant_before(
        Instant { seconds: rfc3339_instant(args.until->Some_0@)->Some_0.seconds, nanos: 0 },
        anchor,
    )
}

/// The requested end is not RFC 3339.
pub open spec fn until_unreadable(args: EventRecurrenceArgs) -> bool {
    args.count is None && args.until is Some && rfc3339_instant(args.until->Some_0@) is None
}

/// The smallest invalid value of a strictly increasing list is its first
/// invalid value.
fn first_invalid_day(days: &Vec<i32>, Ghost(before): Ghost<Seq<i32>>) -> (r: Option<i32>)
    requires
        sorted_unique_of(days@, before),
    ensures
        r is Some == has_invalid_day(before),
        r matches Some(v) ==> v == least_invalid_day(before),
{
    let mut k: usize = 0;
    while k < days.len()
        invariant
            k <= days@.len(),
            sorted_unique_of(days@, before),
            forall|j: int| 0 <= j < k ==> !month_day_invalid(#[trigger] days@[j]),
        decreases days.len() - k,
    {
        let v = days[k];
        if v == 0 || v > 31 || v < -31 {
            proof {
                assert(days@.contains(v));
                assert(before.contains(v));
                assert forall|w: i32| before.contains(w) && month_day_invalid(w) implies v <= w by {
                    assert(days@.contains(w));
                    let j = choose|j: int| 0 <= j < days@.len() && days@[j] == w;
                    if j < k {
                        assert(!month_day_invalid(days@[j]));
                    }
                }
                assert(is_least_invalid_day(before, v));
                let c = least_invalid_day(before);
                assert(is_least_invalid_day(before, c));
                assert(c <= v && v <= c);
            }
            return Some(v);
        }
        k = k + 1;
    }
    proof {
        assert forall|v: i32| before.contains(v) implies !month_day_invalid(v) by {
            assert(days@.contains(v));
            let j = choose|j: int| 0 <= j < days@.len() && days@[j] == v;
            assert(!month_day_invalid(days@[j]));
        }
    }
    None
}

/// What reading recurrence options can give: nothing without `--repeat`
/// (options without it are an error); the first option error; otherwise a
/// rule built from the options, unless the anchor or the end is refused.
/// When the start is an RFC 3339 instant (not a bare date) the end check is
/// decided here; a start read in a time zone depends on the zone rules.
pub open spec fn recurrence_outcome(
    args: EventRecurrenceArgs,
    start_input: Seq<char>,
    r: Result<Option<EventRecurrenceReport>, String>,
) -> bool {
    &&& args.repeat is None && recurrence_args_empty(args) ==> r == Ok::<Option<EventRecurrenceReport>, String>(None)
    &&& args.repeat is None && !recurrence_args_empty(args) ==> r is Err && r->Err_0@
        == "event recurrence options require --repeat"@
    &&& args.repeat is Some && recurrence_option_error(args) is Some ==> r is Err && r->Err_0@
        == recurrence_option_error(args)->Some_0
    &&& args.repeat is Some && recurrence_option_error(args) is None ==> {
        &&& r matches Ok(Some(rule)) ==> rule_from_options(rule, args)
        &&& r matches Ok(None) ==> false
        &&& r matches Err(m) ==> m@ == anchor_error_text() || (until_unreadable(args) && m@
            == until_format_text()) || m@ == until_before_start_text()
        &&& !is_calendar_date(start_input) && rfc3339_instant(start_input) is Some ==> {
            let anchor = rfc3339_instant(start_input)->Some_0;
            &&& until_unreadable(args) ==> r is Err && r->Err_0@ == until_format_text()
            &&& until_before(args, anchor) ==> r is Err && r->Err_0@ == until_before_start_text()
            &&& !until_unreadable(args) && !until_before(args, anchor) ==> r is Ok
        }
    }
}

/// Validates the recurrence options of a new event and builds the rule
/// EventKit will store: weekdays and month days sorted without repetition,
/// the end by count, by an RFC 3339 instant truncated to the whole second
/// (which must not precede the event start), or never.
pub fn parse_event_recurrence(args: &EventRecurrenceArgs, start_input: &str, time_zone: Option<
    &str,
>) -> (r: Result<Option<EventRecurrenceReport>, String>)
    ensures
        recurrence_outcome(*args, start_input@, r),
{
    let frequency = match args.repeat {
        Some(f) => f,
        None => {
            if !event_recurrence_args_is_empty(args) {
                return Err(text_of("event recurrence options require --repeat"));
            }
            return Ok(None);
        },
    };
    let interval: usize = match args.interval {
        Some(n) => n,
        None => 1,
    };
    if interval == 0 {
        return Err(text_of("--repeat-interval must be greater than zero"));
    }
    if interval > isize::MAX as usize {
        return Err(text_of("--repeat-interval is too large for EventKit"));
    }
    if let Some(count) = args.count {
        if count == 0 {
            return Err(text_of("--repeat-count must be greater than zero"));
        }
    }
    if frequency == EventRepeatArg::Daily && (args.weekdays.len() > 0 || args.month_days.len() > 0) {
        return Err(text_of("daily recurrence cannot use --repeat-weekday or --repeat-month-day"));
    }
    if frequency != EventRepeatArg::Monthly && args.month_days.len() > 0 {
        return Err(text_of("--repeat-month-day requires --repeat monthly"));
    }
    if args.weekdays.len() > 0 && args.month_days.len() > 0 {
        return Err(text_of("--repeat-weekday and --repeat-month-day cannot be combined"));
    }
    let month_days = sorted_unique(&args.month_days);
    if let Some(value) = first_invalid_day(&month_days, Ghost(args.month_days@)) {
        let mut message = text_of("--repeat-month-day must be from 1 through 31 or -1 through -31: ");
        push_int(&mut message, value as i64);
        return Err(message);
    }
    let mut requested: Vec<EventRecurrenceWeekdayReport> = Vec::new();
    let mut i: usize = 0;
    while i < args.weekdays.len()
        invariant
            i <= args.weekdays@.len(),
            requested@ == requested_weekdays(*args).take(i as int),
        decreases args.weekdays.len() - i,
    {
        requested.push(
            EventRecurrenceWeekdayReport { weekday: event_weekday_number(args.weekdays[i]), week_number: 0 },
        );
        assert(requested@ =~= requested_weekdays(*args).take(i + 1));
        i = i + 1;
    }
    assert(requested@ =~= requested_weekdays(*args));
    let weekdays = sorted_unique_weekdays(&requested);
    let start = match parse_start_datetime_in_time_zone(start_input, time_zone) {
        Ok(start) => start,
        Err(_) => return Err(text_of("invalid recurrence anchor")),
    };
    let end = if let Some(count) = args.count {
        EventRecurrenceEndReport { kind: text_of("count"), occurrence_count: Some(count), end_date: None }
    } else if let Some(until) = &args.until {
        let until = match parse_rfc3339(until.as_str()) {
            Some(i) => i,
            None => return Err(text_of("--repeat-until must be RFC3339 with an explicit UTC offset")),
        };
        let stored = Instant { seconds: until.seconds, nanos: 0 };
        if is_before(stored, start) {
            return Err(text_of("--repeat-until must not be before the event start"));
        }
        EventRecurrenceEndReport {
            kind: text_of("date"),
            occurrence_count: None,
            end_date: Some(utc_datetime(stored)),
        }
    } else {
        EventRecurrenceEndReport { kind: text_of("never"), occurrence_count: None, end_date: None }
    };
    let days_of_week = if weekdays.len() > 0 {
        Some(weekdays)
    } else {
        proof {
            if args.weekdays@.len() > 0 {
                assert(requested@.contains(requested@[0]));
                assert(weekdays@.contains(requested@[0]));
            }
        }
        None
    };
    let days_of_month = if month_days.len() > 0 {
        Some(month_days)
    } else {
        proof {
            if args.month_days@.len() > 0 {
                assert(args.month_days@.contains(args.month_days@[0]));
                assert(month_days@.contains(args.month_days@[0]));
            }
        }
        None
    };
    proof {
        if days_of_week is Some {
            if args.weekdays@.len() == 0 {
                assert(weekdays@.contains(weekdays@[0]));
            }
        }
        if days_of_month is Some {
            if args.month_days@.len() == 0 {
                assert(month_days@.contains(month_days@[0]));
            }
        }
    }
    let first_day_of_week: isize = if frequency == EventRepeatArg::Weekly && interval > 1 {
        2
    } else {
        0
    };
    Ok(
        Some(
            EventRecurrenceReport {
                frequency: frequency_name(frequency),
                interval,
                first_day_of_week,
                end,
                days_of_week,
                days_of_month,
                months_of_year: None,
                weeks_of_year: None,
                days_of_year: None,
                set_positions: None,
            },
        ),
    )
}

/// The message for a recurring all-day event with date-time boundaries.
pub open spec fn all_day_boundaries_text() -> Seq<char> {
    "recurring all-day events require date-only --start and --end values"@
}

/// A recurring all-day event needs bare `YYYY-MM-DD` boundaries.
pub fn validate_recurring_all_day_inputs(all_day: bool, recurring: bool, start: &str, end: &str) -> (r:
    Result<(), String>)
    ensures
        r is Err == (all_day && recurring && !(is_calendar_date(start@) && is_calendar_date(end@))),
        r matches Err(m) ==> m@ == all_day_boundaries_text(),
{
    if all_day && recurring && (!crate::dates::is_date_only(start) || !crate::dates::is_date_only(end)) {
        return Err(text_of("recurring all-day events require date-only --start and --end values"));
    }
    Ok(())
}

} // verus!

verus! {

/// Two rules hold the same values, list by list.
pub open spec fn same_rule(a: EventRecurrenceReport, b: EventRecurrenceReport) -> bool {
    &&& a.frequency == b.frequency
    &&& a.interval == b.interval
    &&& a.first_day_of_week == b.first_day_of_week
    &&& a.end.kind == b.end.kind
    &&& a.end.occurrence_count == b.end.occurrence_count
    &&& a.end.end_date == b.end.end_date
    &&& list_or_empty(a.days_of_week) == list_or_empty(b.days_of_week)
    &&& a.days_of_week is Some == b.days_of_week is Some
    &&& list_or_empty(a.days_of_month) == list_or_empty(b.days_of_month)
    &&& a.days_of_month is Some == b.days_of_month is Some
    &&& list_or_empty(a.months_of_year) == list_or_empty(b.months_of_year)
    &&& a.months_of_year is Some == b.months_of_year is Some
    &&& list_or_empty(a.weeks_of_year) == list_or_empty(b.weeks_of_year)
    &&& a.weeks_of_year is Some == b.weeks_of_year is Some
    &&& list_or_empty(a.days_of_year) == list_or_empty(b.days_of_year)
    &&& a.days_of_year is Some == b.days_of_year is Some
    &&& list_or_empty(a.set_positions) == list_or_empty(b.set_positions)
    &&& a.set_positions is Some == b.set_positions is Some
}

/// Optional rules that hold the same values.
pub open spec fn same_opt_rule(a: Option<EventRecurrenceReport>, b: Option<EventRecurrenceReport>) -> bool {
    match (a, b) {
        (Some(x), Some(y)) => same_rule(x, y),
        (None, None) => true,
        _ => false,
    }
}

/// A copy of a rule.
pub fn copy_recurrence_report(rule: &EventRecurrenceReport) -> (r: EventRecurrenceReport)
    ensures
        same_rule(r, *rule),
{
    EventRecurrenceReport {
        frequency: rule.frequency.clone(),
        interval: rule.interval,
        first_day_of_week: rule.first_day_of_week,
        end: EventRecurrenceEndReport {
            kind: rule.end.kind.clone(),
            occurrence_count: rule.end.occurrence_count,
            end_date: crate::eventkit::copy_opt_string(&rule.end.end_date),
        },
        days_of_week: copy_opt_weekdays(&rule.days_of_week),
        days_of_month: copy_opt_ints(&rule.days_of_month),
        months_of_year: copy_opt_ints(&rule.months_of_year),
        weeks_of_year: copy_opt_ints(&rule.weeks_of_year),
        days_of_year: copy_opt_ints(&rule.days_of_year),
        set_positions: copy_opt_ints(&rule.set_positions),
    }
}

} // verus!
