//! NT and MS-DOS timestamps.
//!
//! The calendar itself (which day a day number falls on, and the text of a date) comes from
//! chrono; this module computes the plain values that chrono is handed.
use vstd::prelude::*;
use std::fmt::Write;
use crate::cursor::{ByteCursor, le_u16, le_u64};
use crate::err::Error;

verus! {

/// The text chrono gives a `NaiveDate` of this year, month and day (`2012-03-12`).
pub uninterp spec fn date_text(year: i32, month: u32, day: u32) -> Seq<char>;

/// The text chrono gives a `NaiveTime` of this hour, minute and second (`21:27:04`).
pub uninterp spec fn time_text(hour: u32, minute: u32, second: u32) -> Seq<char>;

/// The text chrono gives a `NaiveDate` of this year, month and day under the strftime-style
/// `format`, or `None` when chrono rejects the format.
pub uninterp spec fn date_formatted_text(year: i32, month: u32, day: u32, format: Seq<char>) -> Option<
    Seq<char>,
>;

/// The text chrono gives a `DateTime<Utc>` made of the day with this number counted from
/// 0001-01-01 (day 1) and of this time of day (`2013-10-19 12:16:53.276040 UTC`).
pub uninterp spec fn utc_text(days_from_ce: i32, seconds_from_midnight: u32, nanoseconds: u32) -> Seq<
    char,
>;

/// The text held by an optional string.
pub open spec fn opt_text(r: Option<String>) -> Option<Seq<char>> {
    match r {
        Some(s) => Some(s@),
        None => None,
    }
}

/// Leap years of the proleptic Gregorian calendar.
pub open spec fn is_leap_year(year: int) -> bool {
    year % 4 == 0 && (year % 100 != 0 || year % 400 == 0)
}

/// The number of days in `month` of `year`.
pub open spec fn days_in_month(year: int, month: int) -> int {
    if month == 2 {
        if is_leap_year(year) {
            29
        } else {
            28
        }
    } else if month == 4 || month == 6 || month == 9 || month == 11 {
        30
    } else {
        31
    }
}

/// Whether the day exists in the proleptic Gregorian calendar, within chrono's years.
pub open spec fn valid_ymd(year: i32, month: u32, day: u32) -> bool {
    &&& -262_143 <= year <= 262_142
    &&& 1 <= month <= 12
    &&& 1 <= day <= days_in_month(year as int, month as int)
}

/// Whether the time of day exists (no leap second).
pub open spec fn valid_hms(hour: u32, minute: u32, second: u32) -> bool {
    hour < 24 && minute < 60 && second < 60
}

/// Relies on chrono's `NaiveDate::from_ymd_opt`, which returns `None` exactly for a day that
/// does not exist or lies outside chrono's years, and on the `Display` of `NaiveDate`.
#[verifier::external_body]
fn chrono_date_text(year: i32, month: u32, day: u32) -> (r: Option<String>)
    ensures
        r is Some <==> valid_ymd(year, month, day),
        r matches Some(s) ==> s@ == date_text(year, month, day),
{
    match chrono::NaiveDate::from_ymd_opt(year, month, day) {
        Some(date) => Some(date.to_string()),
        None => None,
    }
}

/// Relies on chrono's `NaiveDate::from_ymd_opt` as above and on `NaiveDate::format`, whose text
/// is written out only when chrono accepts the format.
#[verifier::external_body]
fn chrono_date_formatted(year: i32, month: u32, day: u32, format: &str) -> (r: Option<String>)
    ensures
        !valid_ymd(year, month, day) ==> r is None,
        valid_ymd(year, month, day) ==> opt_text(r) == date_formatted_text(
            year,
            month,
            day,
            format@,
        ),
{
    let date = chrono::NaiveDate::from_ymd_opt(year, month, day)?;
    let mut s = String::new();
    write!(s, "{}", date.format(format)).ok()?;
    Some(s)
}

/// Relies on chrono's `NaiveTime::from_hms_opt`, which returns `None` exactly on an hour,
/// minute or second out of range, and on the `Display` of `NaiveTime`.
#[verifier::external_body]
fn chrono_time_text(hour: u32, minute: u32, second: u32) -> (r: Option<String>)
    ensures
        r is Some <==> valid_hms(hour, minute, second),
        r matches Some(s) ==> s@ == time_text(hour, minute, second),
{
    match chrono::NaiveTime::from_hms_opt(hour, minute, second) {
        Some(time) => Some(time.to_string()),
        None => None,
    }
}

/// Relies on chrono's `NaiveDate::from_num_days_from_ce_opt` (`Some` for every day of years 1
/// to 99,999, which lie inside chrono's range), on
/// `NaiveTime::from_num_seconds_from_midnight_opt` (`Some` when the seconds are below 86,400
/// and the nanoseconds below 10^9), and on the `Display` of `DateTime<Utc>`.
#[verifier::external_body]
fn chrono_utc_text(days_from_ce: i32, seconds_from_midnight: u32, nanoseconds: u32) -> (r: Option<
    String,
>)
    ensures
        1 <= days_from_ce <= 36_500_000 && seconds_from_midnight < 86_400 && nanoseconds
            < 1_000_000_000 ==> r is Some,
        r matches Some(s) ==> s@ == utc_text(days_from_ce, seconds_from_midnight, nanoseconds),
{
    let date = chrono::NaiveDate::from_num_days_from_ce_opt(days_from_ce)?;
    let time = chrono::NaiveTime::from_num_seconds_from_midnight_opt(
        seconds_from_midnight,
        nanoseconds,
    )?;
    let utc = chrono::DateTime::<chrono::Utc>::from_naive_utc_and_offset(
        chrono::NaiveDateTime::new(date, time),
        chrono::Utc,
    );
    Some(utc.to_string())
}

/// The number chrono gives 1601-01-01, counting 0001-01-01 as day 1.
pub const WINDOWS_EPOCH_DAYS_FROM_CE: i32 = 584_389;

/// Ticks of 100 ns in a day.
pub const TICKS_PER_DAY: u64 = 864_000_000_000;

/// A point in time in UTC: a day number (0001-01-01 is day 1) and a time of that day.
#[derive(Clone, Copy, Debug, PartialEq, Eq, Structural)]
pub struct UtcDateTime {
    pub days_from_ce: i32,
    pub seconds_from_midnight: u32,
    pub nanoseconds: u32,
}

/// The instant `ticks` hundred-nanosecond intervals after 1601-01-01 00:00 UTC, truncated to
/// the microsecond.
pub open spec fn utc_of_ticks(ticks: u64) -> UtcDateTime {
    let micros_of_day = (ticks as int % TICKS_PER_DAY as int) / 10;
    UtcDateTime {
        days_from_ce: (WINDOWS_EPOCH_DAYS_FROM_CE + ticks as int / TICKS_PER_DAY as int) as i32,
        seconds_from_midnight: (micros_of_day / 1_000_000) as u32,
        nanoseconds: ((micros_of_day % 1_000_000) * 1000) as u32,
    }
}

impl UtcDateTime {
    /// The text chrono gives this instant, such as `2013-10-19 12:16:53.276040 UTC`.
    pub fn to_string(&self) -> (r: Option<String>)
        ensures
            1 <= self.days_from_ce <= 36_500_000 && self.seconds_from_midnight < 86_400
                && self.nanoseconds < 1_000_000_000 ==> r is Some,
            r matches Some(s) ==> s@ == utc_text(
                self.days_from_ce,
                self.seconds_from_midnight,
                self.nanoseconds,
            ),
    {
        chrono_utc_text(self.days_from_ce, self.seconds_from_midnight, self.nanoseconds)
    }
}

/// A FILETIME: 100-nanosecond intervals since January 1, 1601 (UTC).
/// <https://docs.microsoft.com/en-us/windows/desktop/api/minwinbase/ns-minwinbase-filetime>
#[derive(Clone, Copy, Debug, PartialEq, Eq, Structural)]
pub struct WinTimestamp(pub u64);

impl WinTimestamp {
    /// Decodes a timestamp from the first eight bytes of `buffer`.
    pub fn new(buffer: &[u8]) -> (r: Result<WinTimestamp, Error>)
        ensures
            buffer@.len() >= 8 ==> r == Ok::<WinTimestamp, Error>(WinTimestamp(le_u64(buffer@, 0))),
            buffer@.len() < 8 ==> r == Err::<WinTimestamp, Error>(Error::IoError),
    {
        let mut reader = ByteCursor::new(buffer);
        Self::from_reader(&mut reader)
    }

    /// Decodes a timestamp: eight bytes, little-endian.
    pub fn from_reader(reader: &mut ByteCursor) -> (r: Result<WinTimestamp, Error>)
        ensures
            old(reader).advanced(final(reader), r is Ok, 8),
            old(reader).has(8) ==> r == Ok::<WinTimestamp, Error>(
                WinTimestamp(le_u64(old(reader).bytes(), old(reader).pos())),
            ),
            !old(reader).has(8) ==> r == Err::<WinTimestamp, Error>(Error::IoError),
    {
        match reader.read_u64_le() {
            Ok(v) => Ok(WinTimestamp(v)),
            Err(e) => Err(e),
        }
    }

    /// The instant, truncated to the microsecond.
    pub fn to_datetime(&self) -> (r: UtcDateTime)
        ensures
            r == utc_of_ticks(self.0),
            1 <= r.days_from_ce <= 36_500_000,
            r.seconds_from_midnight < 86_400,
            r.nanoseconds < 1_000_000_000,
    {
        let days = self.0 / TICKS_PER_DAY;
        let micros_of_day = (self.0 % TICKS_PER_DAY) / 10;
        assert(days <= 21_350_398) by (nonlinear_arith)
            requires
                days == self.0 / TICKS_PER_DAY,
        ;
        UtcDateTime {
            days_from_ce: WINDOWS_EPOCH_DAYS_FROM_CE + days as i32,
            seconds_from_midnight: (micros_of_day / 1_000_000) as u32,
            nanoseconds: ((micros_of_day % 1_000_000) * 1000) as u32,
        }
    }

    /// The text of the instant, such as `2013-10-19 12:16:53.276040 UTC`.
    pub fn to_string(&self) -> (r: String)
        ensures
            r@ == utc_text(
                utc_of_ticks(self.0).days_from_ce,
                utc_of_ticks(self.0).seconds_from_midnight,
                utc_of_ticks(self.0).nanoseconds,
            ),
    {
        match self.to_datetime().to_string() {
            Some(s) => s,
            None => {
                assert(false);
                String::new()
            },
        }
    }
}

/// A day of the proleptic Gregorian calendar.
#[derive(Clone, Copy, Debug, PartialEq, Eq, Structural)]
pub struct Date {
    pub year: i32,
    pub month: u32,
    pub day: u32,
}

/// A time of day, to the second.
#[derive(Clone, Copy, Debug, PartialEq, Eq, Structural)]
pub struct Time {
    pub hour: u32,
    pub minute: u32,
    pub second: u32,
}

/// The day packed in an MS-DOS date: day in bits 0-4, month in bits 5-8, years since 1980 in
/// bits 9-15. A day or month of zero is read as one.
pub open spec fn dos_date_of(v: u16) -> Date {
    let day = v % 32;
    let month = (v / 32) % 16;
    Date {
        year: (v / 512 + 1980) as i32,
        month: if month == 0 {
            1
        } else {
            month as u32
        },
        day: if day == 0 {
            1
        } else {
            day as u32
        },
    }
}

/// The time packed in an MS-DOS time: seconds halved in bits 0-4, minutes in bits 5-10, hours in
/// bits 11-15.
pub open spec fn dos_time_of(v: u16) -> Time {
    Time {
        hour: ((v / 2048) % 32) as u32,
        minute: ((v / 32) % 64) as u32,
        second: ((v % 32) * 2) as u32,
    }
}

/// Whether the MS-DOS date `v` names a day that exists.
pub open spec fn dos_date_valid(v: u16) -> bool {
    let d = dos_date_of(v);
    valid_ymd(d.year, d.month, d.day)
}

/// Whether the MS-DOS time `v` names a time of day that exists.
pub open spec fn dos_time_valid(v: u16) -> bool {
    let t = dos_time_of(v);
    valid_hms(t.hour, t.minute, t.second)
}

/// An MS-DOS date: a packed 16-bit day.
#[derive(Clone, Copy, Debug, PartialEq, Eq, Structural)]
pub struct DosDate(pub u16);

impl DosDate {
    /// The date packed in `date`.
    pub fn new(date: u16) -> (r: DosDate)
        ensures
            r.0 == date,
    {
        DosDate(date)
    }

    /// Decodes a date: two bytes, little-endian.
    pub fn from_reader(reader: &mut ByteCursor) -> (r: Result<DosDate, Error>)
        ensures
            old(reader).advanced(final(reader), r is Ok, 2),
            old(reader).has(2) ==> r == Ok::<DosDate, Error>(
                DosDate(le_u16(old(reader).bytes(), old(reader).pos())),
            ),
            !old(reader).has(2) ==> r == Err::<DosDate, Error>(Error::IoError),
    {
        match reader.read_u16_le() {
            Ok(v) => Ok(DosDate(v)),
            Err(e) => Err(e),
        }
    }

    /// The year, month and day.
    pub fn to_date(&self) -> (r: Date)
        ensures
            r == dos_date_of(self.0),
    {
        let mut day = self.0 % 32;
        if day == 0 {
            day = 1;
        }
        let mut month = (self.0 / 32) % 16;
        if month == 0 {
            month = 1;
        }
        let year = self.0 / 512 + 1980;
        Date { year: year as i32, month: month as u32, day: day as u32 }
    }

    /// Whether the date names a day that exists (no month above 12, no 30 February).
    pub fn is_valid(&self) -> (r: bool)
        ensures
            r == dos_date_valid(self.0),
    {
        let d = self.to_date();
        let days = if d.month == 2 {
            if d.year % 4 == 0 && (d.year % 100 != 0 || d.year % 400 == 0) {
                29
            } else {
                28
            }
        } else if d.month == 4 || d.month == 6 || d.month == 9 || d.month == 11 {
            30
        } else {
            31
        };
        d.month <= 12 && d.day <= days
    }

    /// The date as chrono writes it, such as `2012-03-12`.
    pub fn to_string(&self) -> (r: String)
        requires
            dos_date_valid(self.0),
        ensures
            r@ == date_text(dos_date_of(self.0).year, dos_date_of(self.0).month, dos_date_of(self.0).day),
    {
        let d = self.to_date();
        match chrono_date_text(d.year, d.month, d.day) {
            Some(s) => s,
            None => {
                assert(false);
                String::new()
            },
        }
    }

    /// The date under a strftime-style `format`; `None` when the date does not exist or chrono
    /// rejects the format.
    pub fn to_date_formatted(&self, format: &str) -> (r: Option<String>)
        ensures
            !dos_date_valid(self.0) ==> r is None,
            dos_date_valid(self.0) ==> opt_text(r) == date_formatted_text(
                dos_date_of(self.0).year,
                dos_date_of(self.0).month,
                dos_date_of(self.0).day,
                format@,
            ),
    {
        let d = self.to_date();
        chrono_date_formatted(d.year, d.month, d.day, format)
    }
}

/// An MS-DOS time: a packed 16-bit time of day, to two seconds.
#[derive(Clone, Copy, Debug, PartialEq, Eq, Structural)]
pub struct DosTime(pub u16);

impl DosTime {
    /// The time packed in `value`.
    pub fn new(value: u16) -> (r: DosTime)
        ensures
            r.0 == value,
    {
        DosTime(value)
    }

    /// Decodes a time: two bytes, little-endian.
    pub fn from_reader(reader: &mut ByteCursor) -> (r: Result<DosTime, Error>)
        ensures
            old(reader).advanced(final(reader), r is Ok, 2),
            old(reader).has(2) ==> r == Ok::<DosTime, Error>(
                DosTime(le_u16(old(reader).bytes(), old(reader).pos())),
            ),
            !old(reader).has(2) ==> r == Err::<DosTime, Error>(Error::IoError),
    {
        match reader.read_u16_le() {
            Ok(v) => Ok(DosTime(v)),
            Err(e) => Err(e),
        }
    }

    /// The hour, minute and second.
    pub fn to_time(&self) -> (r: Time)
        ensures
            r == dos_time_of(self.0),
    {
        let second = (self.0 % 32) * 2;
        let minute = (self.0 / 32) % 64;
        let hour = (self.0 / 2048) % 32;
        Time { hour: hour as u32, minute: minute as u32, second: second as u32 }
    }

    /// Whether the time names a time of day that exists.
    pub fn is_valid(&self) -> (r: bool)
        ensures
            r == dos_time_valid(self.0),
    {
        let t = self.to_time();
        t.hour < 24 && t.minute < 60 && t.second < 60
    }

    /// The time as chrono writes it, such as `21:27:04`.
    pub fn to_string(&self) -> (r: String)
        requires
            dos_time_valid(self.0),
        ensures
            r@ == time_text(dos_time_of(self.0).hour, dos_time_of(self.0).minute, dos_time_of(self.0).second),
    {
        let t = self.to_time();
        match chrono_time_text(t.hour, t.minute, t.second) {
            Some(s) => s,
            None => {
                assert(false);
                String::new()
            },
        }
    }
}

/// An MS-DOS date and time.
#[derive(Clone, Copy, Debug, PartialEq, Eq, Structural)]
pub struct DosDateTime {
    pub date: u16,
    pub time: u16,
}

impl DosDateTime {
    /// The date and time packed in `date` and `time`.
    pub fn new(date: u16, time: u16) -> (r: DosDateTime)
        ensures
            r.date == date,
            r.time == time,
    {
        DosDateTime { date, time }
    }

    /// Decodes a date then a time, each two bytes little-endian.
    pub fn from_reader(reader: &mut ByteCursor) -> (r: Result<DosDateTime, Error>)
        ensures
            final(reader).bytes() == old(reader).bytes(),
            old(reader).has(4) ==> r is Ok && r->Ok_0.date == le_u16(
                old(reader).bytes(),
                old(reader).pos(),
            ) && r->Ok_0.time == le_u16(old(reader).bytes(), old(reader).pos() + 2)
                && final(reader).pos() == old(reader).pos() + 4,
            !old(reader).has(4) ==> r == Err::<DosDateTime, Error>(Error::IoError),
    {
        let date = match reader.read_u16_le() {
            Ok(v) => v,
            Err(e) => return Err(e),
        };
        let time = match reader.read_u16_le() {
            Ok(v) => v,
            Err(e) => return Err(e),
        };
        Ok(DosDateTime { date, time })
    }

    /// The date part.
    pub fn date(&self) -> (r: DosDate)
        ensures
            r.0 == self.date,
    {
        DosDate(self.date)
    }

    /// The time part.
    pub fn time(&self) -> (r: DosTime)
        ensures
            r.0 == self.time,
    {
        DosTime(self.time)
    }

    /// The date and time as chrono writes a `NaiveDateTime`, such as `2012-03-12 21:27:04`.
    pub fn to_string(&self) -> (r: String)
        requires
            dos_date_valid(self.date),
            dos_time_valid(self.time),
        ensures
            r@ == date_text(
                dos_date_of(self.date).year,
                dos_date_of(self.date).month,
                dos_date_of(self.date).day,
            ) + seq![' '] + time_text(
                dos_time_of(self.time).hour,
                dos_time_of(self.time).minute,
                dos_time_of(self.time).second,
            ),
    {
        proof {
            reveal_strlit(" ");
        }
        let mut s = DosDate(self.date).to_string();
        let t = DosTime(self.time).to_string();
        s.append(" ");
        s.append(t.as_str());
        s
    }
}

impl From<u32> for DosDateTime {
    /// The date is the low 16 bits, the time the high 16.
    fn from(datetime: u32) -> (r: DosDateTime)
        ensures
            r.date == datetime % 0x1_0000,
            r.time == datetime / 0x1_0000,
    {
        DosDateTime { date: (datetime % 0x1_0000) as u16, time: (datetime / 0x1_0000) as u16 }
    }
}

impl vstd::std_specs::convert::FromSpecImpl<u32> for DosDateTime {
    open spec fn obeys_from_spec() -> bool {
        true
    }

    open spec fn from_spec(v: u32) -> DosDateTime {
        DosDateTime { date: (v % 0x1_0000) as u16, time: (v / 0x1_0000) as u16 }
    }
}

} // verus!
