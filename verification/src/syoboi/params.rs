//! Request parameters of the schedule service: calendar times, the time
//! window of a program lookup and the filters that go with it.

use chrono::{Datelike, Timelike};
use vstd::prelude::*;
use vstd::string::*;

verus! {

/// Format of a full timestamp with a `T` between date and time.
pub const FORMAT_ISO: &'static str = "%Y-%m-%dT%H:%M:%S";

/// Format of a full timestamp with a space between date and time, the form
/// in which the service writes the timestamps of its records.
pub const FORMAT_SPACED: &'static str = "%Y-%m-%d %H:%M:%S";

/// Format of the two ends of a `Range` parameter.
pub const FORMAT_RANGE: &'static str = "%Y%m%d_%H%M%S";

/// A wall-clock time to the second, without a time zone.
#[derive(Debug, Clone, Copy, PartialEq, Eq, Structural)]
pub struct CalendarTime {
    /// Year in astronomical numbering (year 0 exists).
    pub year: i32,
    /// Month, 1 to 12.
    pub month: u32,
    /// Day of the month, from 1.
    pub day: u32,
    /// Hour, 0 to 23.
    pub hour: u32,
    /// Minute, 0 to 59.
    pub minute: u32,
    /// Second, 0 to 59.
    pub second: u32,
}

/// A time window, both ends included.
#[derive(Debug, Clone, Copy, PartialEq, Eq, Structural)]
pub struct TimeRange {
    /// First instant of the window.
    pub start: CalendarTime,
    /// Last instant of the window.
    pub end: CalendarTime,
}

/// Filters of a program lookup.
#[derive(Debug)]
pub struct ProgLookupParams {
    /// Title keys to look up; `None` for all titles.
    pub tids: Option<Vec<u32>>,
    /// Channel keys to look up; `None` for all channels.
    pub ch_ids: Option<Vec<u32>>,
    /// Time window of the broadcasts.
    pub range: Option<TimeRange>,
    /// Filter on the start time.
    pub st_time: Option<String>,
    /// Filter on the change token.
    pub last_update: Option<String>,
    /// Whether the episode subtitles are joined in.
    pub join_sub_titles: bool,
    /// Fields that the answer is restricted to.
    pub fields: Option<Vec<String>>,
}

/// Why a time window could not be resolved.
#[derive(Debug)]
pub enum RangeError {
    /// The text is no timestamp in any accepted form.
    InvalidDatetime(String),
    /// Only one end of the window was given.
    MissingBound,
    /// One day before the current time is not representable.
    StartOutOfRange,
    /// One day after the current time is not representable.
    EndOutOfRange,
}

/// Whether `year` is a leap year of the proleptic Gregorian calendar.
pub open spec fn is_leap_year(year: int) -> bool {
    year % 4 == 0 && (year % 100 != 0 || year % 400 == 0)
}

/// Number of days of `month` in `year`; 0 where `month` is no month.
pub open spec fn days_in_month(year: int, month: int) -> int {
    if month == 2 {
        if is_leap_year(year) {
            29
        } else {
            28
        }
    } else if month == 4 || month == 6 || month == 9 || month == 11 {
        30
    } else if 1 <= month <= 12 {
        31
    } else {
        0
    }
}

/// Whether `format` is one of the formats this library writes times in.
pub open spec fn supported_time_format(format: Seq<char>) -> bool {
    format == FORMAT_ISO@ || format == FORMAT_SPACED@ || format == FORMAT_RANGE@
}

/// The calendar time that `text` holds when read by `format`, if it holds
/// one: the result of chrono's `NaiveDateTime::parse_from_str`.
pub uninterp spec fn parsed_time(text: Seq<char>, format: Seq<char>) -> Option<CalendarTime>;

/// The text of `time` written by `format`: what chrono's
/// `NaiveDateTime::format` displays.
pub uninterp spec fn formatted_time(time: CalendarTime, format: Seq<char>) -> Seq<char>;

/// `time` moved by `days` whole days, if that is representable: the result
/// of chrono's `NaiveDateTime::checked_add_signed`.
pub uninterp spec fn shifted_by_days(time: CalendarTime, days: int) -> Option<CalendarTime>;

/// Whole seconds from `from` to `to`, negative where `to` is the earlier:
/// what chrono's `NaiveDateTime::signed_duration_since` counts.
pub uninterp spec fn seconds_between(from: CalendarTime, to: CalendarTime) -> int;

/// The error type of chrono's parsers.
#[verifier::external_type_specification]
#[verifier::external_body]
pub struct ExParseError(chrono::ParseError);

impl CalendarTime {
    /// Whether the fields name a calendar time that chrono can hold.
    pub open spec fn well_formed(self) -> bool {
        &&& -262143 <= self.year <= 262142
        &&& 1 <= self.month <= 12
        &&& 1 <= self.day <= days_in_month(self.year as int, self.month as int)
        &&& self.hour < 24
        &&& self.minute < 60
        &&& self.second < 60
    }

    /// Whether `self` is strictly earlier than `other`.
    pub open spec fn before(self, other: CalendarTime) -> bool {
        ||| self.year < other.year
        ||| self.year == other.year && self.month < other.month
        ||| self.year == other.year && self.month == other.month && self.day < other.day
        ||| self.year == other.year && self.month == other.month && self.day == other.day
            && self.hour < other.hour
        ||| self.year == other.year && self.month == other.month && self.day == other.day
            && self.hour == other.hour && self.minute < other.minute
        ||| self.year == other.year && self.month == other.month && self.day == other.day
            && self.hour == other.hour && self.minute == other.minute && self.second
            < other.second
    }

    /// Whether `self` is `other` or earlier.
    pub open spec fn at_or_before(self, other: CalendarTime) -> bool {
        self == other || self.before(other)
    }

    /// Builds a calendar time from its six fields.
    pub fn new(year: i32, month: u32, day: u32, hour: u32, minute: u32, second: u32) -> (time:
        Self)
        ensures
            time == (CalendarTime { year, month, day, hour, minute, second }),
    {
        CalendarTime { year, month, day, hour, minute, second }
    }

    /// Tells whether the fields name a calendar time that chrono can hold.
    pub fn is_well_formed(&self) -> (valid: bool)
        ensures
            valid == self.well_formed(),
    {
        if self.year < -262143 || self.year > 262142 || self.month < 1 || self.month > 12
            || self.day < 1 || self.hour >= 24 || self.minute >= 60 || self.second >= 60 {
            return false;
        }
        let leap = self.year % 4 == 0 && (self.year % 100 != 0 || self.year % 400 == 0);
        proof {
            let y = self.year as int;
            assert((self.year % 4 == 0) == (y % 4 == 0));
            assert((self.year % 100 == 0) == (y % 100 == 0));
            assert((self.year % 400 == 0) == (y % 400 == 0));
        }
        let days: u32 = if self.month == 2 {
            if leap {
                29
            } else {
                28
            }
        } else if self.month == 4 || self.month == 6 || self.month == 9 || self.month == 11 {
            30
        } else {
            31
        };
        self.day <= days
    }

    /// Tells whether `self` is `other` or earlier.
    pub fn is_at_or_before(&self, other: &CalendarTime) -> (earlier: bool)
        ensures
            earlier == self.at_or_before(*other),
    {
        if self.year != other.year {
            self.year < other.year
        } else if self.month != other.month {
            self.month < other.month
        } else if self.day != other.day {
            self.day < other.day
        } else if self.hour != other.hour {
            self.hour < other.hour
        } else if self.minute != other.minute {
            self.minute < other.minute
        } else {
            self.second <= other.second
        }
    }
}

/// Reads `text` by `format`.
///
/// Trusted: calls chrono's `NaiveDateTime::parse_from_str` and copies the
/// six fields of what it returns. The claim is that the call succeeds
/// exactly where `parsed_time` holds a value, and returns that value, and
/// that every value it returns names a calendar time within chrono's years.
#[verifier::external_body]
pub(crate) fn parse_time(text: &str, format: &str) -> (parsed: Result<CalendarTime, chrono::ParseError>)
    ensures
        parsed is Ok <==> parsed_time(text@, format@) is Some,
        parsed matches Ok(time) ==> parsed_time(text@, format@) == Some(time)
            && time.well_formed(),
{
    chrono::NaiveDateTime::parse_from_str(text, format).map(
        |t| CalendarTime {
            year: t.year(),
            month: t.month(),
            day: t.day(),
            hour: t.hour(),
            minute: t.minute(),
            second: t.second(),
        },
    )
}

/// Writes `time` by `format`.
///
/// Trusted: builds chrono's value of the six fields, which name a calendar
/// time, and returns what `NaiveDateTime::format` displays for it.
/// Displaying panics on a format that holds an unknown specifier, so only
/// the library's own formats are admitted.
#[verifier::external_body]
fn format_time(time: &CalendarTime, format: &str) -> (text: String)
    requires
        time.well_formed(),
        supported_time_format(format@),
    ensures
        text@ == formatted_time(*time, format@),
{
    chrono::NaiveDate::from_ymd_opt(time.year, time.month, time.day)
        .unwrap_or_default()
        .and_hms_opt(time.hour, time.minute, time.second)
        .unwrap_or_default()
        .format(format)
        .to_string()
}

/// Moves `time` by `days` whole days.
///
/// Trusted: builds chrono's value of the six fields, which name a calendar
/// time, calls `TimeDelta::try_days` and
/// `NaiveDateTime::checked_add_signed` and copies the fields of the sum.
/// The claim is that the result is `shifted_by_days` of the arguments and,
/// where there is one, names a calendar time within chrono's years.
#[verifier::external_body]
fn shift_days(time: &CalendarTime, days: i64) -> (moved: Option<CalendarTime>)
    requires
        time.well_formed(),
    ensures
        moved == shifted_by_days(*time, days as int),
        moved matches Some(t) ==> t.well_formed(),
{
    let start = chrono::NaiveDate::from_ymd_opt(time.year, time.month, time.day)
        .unwrap_or_default()
        .and_hms_opt(time.hour, time.minute, time.second)
        .unwrap_or_default();
    chrono::TimeDelta::try_days(days).and_then(|d| start.checked_add_signed(d)).map(
        |t| CalendarTime {
            year: t.year(),
            month: t.month(),
            day: t.day(),
            hour: t.hour(),
            minute: t.minute(),
            second: t.second(),
        },
    )
}

/// The current local wall-clock time, cut to the second.
///
/// Trusted: calls chrono's `Local::now` and copies the fields of its
/// `naive_local`. Nothing is claimed of the instant; only that the fields
/// name a calendar time.
#[verifier::external_body]
fn local_now() -> (now: CalendarTime)
    ensures
        now.well_formed(),
{
    let t = chrono::Local::now().naive_local();
    CalendarTime {
        year: t.year(),
        month: t.month(),
        day: t.day(),
        hour: t.hour(),
        minute: t.minute(),
        second: t.second(),
    }
}

/// Counts the whole seconds from `from` to `to`.
///
/// Trusted: builds chrono's values of both arguments, which name calendar
/// times, and returns `num_seconds` of `to.signed_duration_since(from)`.
#[verifier::external_body]
pub(crate) fn count_seconds(from: &CalendarTime, to: &CalendarTime) -> (seconds: i64)
    requires
        from.well_formed(),
        to.well_formed(),
    ensures
        seconds == seconds_between(*from, *to),
{
    let a = chrono::NaiveDate::from_ymd_opt(from.year, from.month, from.day)
        .unwrap_or_default()
        .and_hms_opt(from.hour, from.minute, from.second)
        .unwrap_or_default();
    let b = chrono::NaiveDate::from_ymd_opt(to.year, to.month, to.day)
        .unwrap_or_default()
        .and_hms_opt(to.hour, to.minute, to.second)
        .unwrap_or_default();
    b.signed_duration_since(a).num_seconds()
}

impl TimeRange {
    /// Whether both ends name calendar times.
    pub open spec fn well_formed(self) -> bool {
        self.start.well_formed() && self.end.well_formed()
    }

    /// Tells whether both ends name calendar times.
    pub fn is_well_formed(&self) -> (valid: bool)
        ensures
            valid == self.well_formed(),
    {
        self.start.is_well_formed() && self.end.is_well_formed()
    }

    /// The text of the window as the `Range` parameter carries it.
    pub open spec fn syoboi_format(self) -> Seq<char> {
        formatted_time(self.start, FORMAT_RANGE@) + "-"@ + formatted_time(self.end, FORMAT_RANGE@)
    }

    /// Builds the window from `start` to `end`.
    pub fn new(start: CalendarTime, end: CalendarTime) -> (range: Self)
        ensures
            range.start == start,
            range.end == end,
    {
        TimeRange { start, end }
    }

    /// Writes the window as `YYYYMMDD_HHMMSS-YYYYMMDD_HHMMSS`.
    pub fn to_syoboi_format(&self) -> (text: String)
        requires
            self.well_formed(),
        ensures
            text@ == self.syoboi_format(),
    {
        let start = format_time(&self.start, FORMAT_RANGE);
        let end = format_time(&self.end, FORMAT_RANGE);
        start.concat("-").concat(end.as_str())
    }
}

/// The characters of each text of an optional list.
pub open spec fn optional_texts(list: Option<Vec<String>>) -> Option<Seq<Seq<char>>> {
    match list {
        Some(texts) => Some(texts@.map_values(|t: String| t@)),
        None => None,
    }
}

/// The numbers of an optional list.
pub open spec fn optional_numbers(list: Option<Vec<u32>>) -> Option<Seq<u32>> {
    match list {
        Some(numbers) => Some(numbers@),
        None => None,
    }
}

/// The characters of an optional text.
pub open spec fn optional_chars(text: Option<String>) -> Option<Seq<char>> {
    match text {
        Some(t) => Some(t@),
        None => None,
    }
}

impl Clone for ProgLookupParams {
    fn clone(&self) -> (copy: Self)
        ensures
            copy.same_filters(*self),
            copy.range == self.range,
    {
        let tids = match &self.tids {
            Some(ids) => Some(ids.clone()),
            None => None,
        };
        let ch_ids = match &self.ch_ids {
            Some(ids) => Some(ids.clone()),
            None => None,
        };
        let fields = match &self.fields {
            Some(names) => {
                let copied = names.clone();
                proof {
                    assert(copied@.map_values(|t: String| t@) =~= names@.map_values(
                        |t: String| t@,
                    ));
                }
                Some(copied)
            },
            None => None,
        };
        ProgLookupParams {
            tids,
            ch_ids,
            range: self.range,
            st_time: self.st_time.clone(),
            last_update: self.last_update.clone(),
            join_sub_titles: self.join_sub_titles,
            fields,
        }
    }
}

impl Default for ProgLookupParams {
    /// The filters that select everything: no keys, no window, subtitles
    /// joined in.
    fn default() -> (params: Self)
        ensures
            params.tids is None,
            params.ch_ids is None,
            params.range is None,
            params.st_time is None,
            params.last_update is None,
            params.join_sub_titles,
            params.fields is None,
    {
        ProgLookupParams {
            tids: None,
            ch_ids: None,
            range: None,
            st_time: None,
            last_update: None,
            join_sub_titles: true,
            fields: None,
        }
    }
}

impl ProgLookupParams {
    /// Whether the time window, where there is one, has ends that name
    /// calendar times.
    pub open spec fn well_formed(self) -> bool {
        self.range matches Some(range) ==> range.well_formed()
    }

    /// Tells whether the time window, where there is one, has ends that
    /// name calendar times.
    pub fn is_well_formed(&self) -> (valid: bool)
        ensures
            valid == self.well_formed(),
    {
        match &self.range {
            Some(range) => range.is_well_formed(),
            None => true,
        }
    }

    /// Whether `self` and `other` filter alike in everything but the time
    /// window.
    pub open spec fn same_filters(self, other: ProgLookupParams) -> bool {
        &&& optional_numbers(self.tids) == optional_numbers(other.tids)
        &&& optional_numbers(self.ch_ids) == optional_numbers(other.ch_ids)
        &&& optional_chars(self.st_time) == optional_chars(other.st_time)
        &&& optional_chars(self.last_update) == optional_chars(other.last_update)
        &&& self.join_sub_titles == other.join_sub_titles
        &&& optional_texts(self.fields) == optional_texts(other.fields)
    }
}

impl RangeError {
    /// The message that describes this error.
    pub open spec fn message(self) -> Seq<char> {
        match self {
            RangeError::InvalidDatetime(text) => "invalid datetime format: "@ + text@,
            RangeError::MissingBound =>
                "both --time-since and --time-until must be specified together"@,
            RangeError::StartOutOfRange => "failed to compute start time"@,
            RangeError::EndOutOfRange => "failed to compute end time"@,
        }
    }

    /// Renders the error as text.
    pub fn to_string(&self) -> (text: String)
        ensures
            text@ == self.message(),
    {
        match self {
            RangeError::InvalidDatetime(t) => String::from_str("invalid datetime format: ")
                .concat(t.as_str()),
            RangeError::MissingBound => String::from_str(
                "both --time-since and --time-until must be specified together",
            ),
            RangeError::StartOutOfRange => String::from_str("failed to compute start time"),
            RangeError::EndOutOfRange => String::from_str("failed to compute end time"),
        }
    }
}

/// The time that `text` holds as a full timestamp, in either full form.
pub open spec fn full_datetime(text: Seq<char>) -> Option<CalendarTime> {
    match parsed_time(text, FORMAT_ISO@) {
        Some(time) => Some(time),
        None => parsed_time(text, FORMAT_SPACED@),
    }
}

/// The time that `text` holds where a bare date stands for `suffix` on that
/// day.
pub open spec fn datetime_or_date(text: Seq<char>, suffix: Seq<char>) -> Option<CalendarTime> {
    match full_datetime(text) {
        Some(time) => Some(time),
        None => parsed_time(text + suffix, FORMAT_ISO@),
    }
}

/// Reads `text` as a full timestamp, with `T` or with a space.
pub fn try_full_datetime(text: &str) -> (time: Option<CalendarTime>)
    ensures
        time == full_datetime(text@),
        time matches Some(t) ==> t.well_formed(),
{
    match parse_time(text, FORMAT_ISO) {
        Ok(time) => Some(time),
        Err(_) => match parse_time(text, FORMAT_SPACED) {
            Ok(time) => Some(time),
            Err(_) => None,
        },
    }
}

/// Picks the time of a bound from what its text held: `full` as a full
/// timestamp, else `dated` as a bare date; where neither holds a time, the
/// text is handed back as the error.
pub fn choose_bound(text: &str, full: Option<CalendarTime>, dated: Option<CalendarTime>) -> (bound:
    Result<CalendarTime, RangeError>)
    ensures
        match full {
            Some(time) => bound == Ok::<CalendarTime, RangeError>(time),
            None => match dated {
                Some(time) => bound == Ok::<CalendarTime, RangeError>(time),
                None => bound matches Err(RangeError::InvalidDatetime(bad)) && bad@ == text@,
            },
        },
{
    match full {
        Some(time) => Ok(time),
        None => match dated {
            Some(time) => Ok(time),
            None => Err(RangeError::InvalidDatetime(String::from_str(text))),
        },
    }
}

/// Reads the start of a window: a full timestamp, or a bare date that
/// stands for the first second of that day.
pub fn to_naive_datetime_since(text: &str) -> (bound: Result<CalendarTime, RangeError>)
    ensures
        match datetime_or_date(text@, "T00:00:00"@) {
            Some(time) => bound == Ok::<CalendarTime, RangeError>(time) && time.well_formed(),
            None => bound matches Err(RangeError::InvalidDatetime(bad)) && bad@ == text@,
        },
{
    let full = try_full_datetime(text);
    if full.is_some() {
        return choose_bound(text, full, None);
    }
    let dated = match parse_time(String::from_str(text).concat("T00:00:00").as_str(), FORMAT_ISO) {
        Ok(time) => Some(time),
        Err(_) => None,
    };
    choose_bound(text, full, dated)
}

/// Reads the end of a window: a full timestamp, or a bare date that stands
/// for the last second of that day.
pub fn to_naive_datetime_until(text: &str) -> (bound: Result<CalendarTime, RangeError>)
    ensures
        match datetime_or_date(text@, "T23:59:59"@) {
            Some(time) => bound == Ok::<CalendarTime, RangeError>(time) && time.well_formed(),
            None => bound matches Err(RangeError::InvalidDatetime(bad)) && bad@ == text@,
        },
{
    let full = try_full_datetime(text);
    if full.is_some() {
        return choose_bound(text, full, None);
    }
    let dated = match parse_time(String::from_str(text).concat("T23:59:59").as_str(), FORMAT_ISO) {
        Ok(time) => Some(time),
        Err(_) => None,
    };
    choose_bound(text, full, dated)
}

/// The window around `now` that a lookup without bounds covers: one day
/// back and one day ahead, as far as both are representable.
pub open spec fn default_window(now: CalendarTime) -> Result<TimeRange, RangeError> {
    match shifted_by_days(now, -1) {
        None => Err(RangeError::StartOutOfRange),
        Some(start) => match shifted_by_days(now, 1) {
            None => Err(RangeError::EndOutOfRange),
            Some(end) => Ok(TimeRange { start, end }),
        },
    }
}

/// The characters of an optional bound text.
pub open spec fn bound_text(text: Option<&str>) -> Option<Seq<char>> {
    match text {
        Some(t) => Some(t@),
        None => None,
    }
}

/// Whether `result` is what resolving the two bound texts at time `now`
/// gives: both absent, the window around `now`; both present, the window
/// they name; one alone, an error.
pub open spec fn resolves_to(
    time_since: Option<Seq<char>>,
    time_until: Option<Seq<char>>,
    now: CalendarTime,
    result: Result<TimeRange, RangeError>,
) -> bool {
    match (time_since, time_until) {
        (None, None) => match default_window(now) {
            Ok(range) => result == Ok::<TimeRange, RangeError>(range),
            Err(e) => result is Err && result->Err_0 == e,
        },
        (Some(since), Some(until)) => match datetime_or_date(since, "T00:00:00"@) {
            None => result matches Err(RangeError::InvalidDatetime(bad)) && bad@ == since,
            Some(start) => match datetime_or_date(until, "T23:59:59"@) {
                None => result matches Err(RangeError::InvalidDatetime(bad)) && bad@ == until,
                Some(end) => result == Ok::<TimeRange, RangeError>(TimeRange { start, end }),
            },
        },
        _ => result is Err && result->Err_0 == RangeError::MissingBound,
    }
}

/// Resolves the window of a lookup from its two optional bound texts, with
/// `now` as the current time.
pub fn resolve_time_range_at(time_since: Option<&str>, time_until: Option<&str>, now: CalendarTime) -> (range:
    Result<TimeRange, RangeError>)
    requires
        now.well_formed(),
    ensures
        resolves_to(bound_text(time_since), bound_text(time_until), now, range),
        range matches Ok(window) ==> window.well_formed(),
{
    match (time_since, time_until) {
        (None, None) => {
            match shift_days(&now, -1) {
                None => Err(RangeError::StartOutOfRange),
                Some(start) => match shift_days(&now, 1) {
                    None => Err(RangeError::EndOutOfRange),
                    Some(end) => Ok(TimeRange::new(start, end)),
                },
            }
        },
        (Some(since), Some(until)) => {
            match to_naive_datetime_since(since) {
                Err(e) => Err(e),
                Ok(start) => match to_naive_datetime_until(until) {
                    Err(e) => Err(e),
                    Ok(end) => Ok(TimeRange::new(start, end)),
                },
            }
        },
        _ => Err(RangeError::MissingBound),
    }
}

/// Resolves the window of a lookup from its two optional bound texts. With
/// both absent the window runs from one day before the current local time
/// to one day after it; one bound alone is an error.
pub fn resolve_time_range(time_since: Option<&str>, time_until: Option<&str>) -> (range: Result<
    TimeRange,
    RangeError,
>)
    ensures
        exists|now: CalendarTime|
            now.well_formed() && #[trigger] resolves_to(
                bound_text(time_since),
                bound_text(time_until),
                now,
                range,
            ),
        range matches Ok(window) ==> window.well_formed(),
{
    let now = local_now();
    resolve_time_range_at(time_since, time_until, now)
}

} // verus!
