//! Instants, the UTC date and time that the real-time clock keeps, and local time.

use crate::calendar::{
    days_before_month, epoch_day, law_epoch_second_is_unique, law_every_second_has_a_civil,
    valid_date, valid_time, Civil,
};
use time::error::ComponentRange;
use vstd::prelude::*;

verus! {

/// Where the badge hangs.
pub const TIMEZONE: &'static str = "Europe/Stockholm";

/// The earliest second a [`Timestamp`] can hold (-9999-01-02 01:59:59 UTC).
pub const MIN_SECOND: i64 = -377_705_023_201;

/// The latest second a [`Timestamp`] can hold (9999-12-30 22:00:00 UTC).
pub const MAX_SECOND: i64 = 253_402_207_200;

#[verifier::external_type_specification]
#[verifier::external_body]
pub struct ExJiffError(jiff::Error);

#[verifier::external_type_specification]
#[verifier::external_body]
pub struct ExComponentRange(ComponentRange);

/// Whether an instant, in nanoseconds from the Unix epoch, can be held by a [`Timestamp`].
pub open spec fn in_range(nanos: int) -> bool {
    MIN_SECOND * 1_000_000_000 <= nanos <= MAX_SECOND * 1_000_000_000 + 999_999_999
}

/// An instant. Its view is the number of nanoseconds from the Unix epoch.
///
/// `second` and `nanosecond` never have opposite signs.
#[derive(Clone, Copy, Debug, PartialEq, Eq)]
pub struct Timestamp {
    second: i64,
    nanosecond: i32,
}

impl View for Timestamp {
    type V = int;

    closed spec fn view(&self) -> int {
        self.second * 1_000_000_000 + self.nanosecond
    }
}

/// A date and time in UTC or local time, to the second.
#[derive(Clone, Copy, Debug, PartialEq, Eq)]
pub struct DateTime {
    pub year: i16,
    pub month: i8,
    pub day: i8,
    pub hour: i8,
    pub minute: i8,
    pub second: i8,
}

impl View for DateTime {
    type V = Civil;

    open spec fn view(&self) -> Civil {
        Civil {
            year: self.year as int,
            month: self.month as int,
            day: self.day as int,
            hour: self.hour as int,
            minute: self.minute as int,
            second: self.second as int,
        }
    }
}

impl DateTime {
    /// Whether the fields name a second of a day between the years -9999 and 9999.
    pub open spec fn valid(self) -> bool {
        -9999 <= self.year <= 9999 && self@.valid()
    }
}

/// The date and time (UTC) that the real-time clock is set to and read from.
#[derive(Clone, Copy, Debug, PartialEq, Eq)]
pub struct PrimitiveDateTime {
    year: i32,
    month: u8,
    day: u8,
    hour: u8,
    minute: u8,
    second: u8,
}

impl View for PrimitiveDateTime {
    type V = Civil;

    closed spec fn view(&self) -> Civil {
        Civil {
            year: self.year as int,
            month: self.month as int,
            day: self.day as int,
            hour: self.hour as int,
            minute: self.minute as int,
            second: self.second as int,
        }
    }
}

/// Calls `jiff::Timestamp::from_second`, and gives the seconds and the
/// nanoseconds of the instant it builds. It fails exactly on seconds outside
/// `MIN_SECOND..=MAX_SECOND`; the nanoseconds are zero.
#[verifier::external_body]
fn jiff_from_second(second: i64) -> (r: Result<(i64, i32), jiff::Error>)
    ensures
        r is Ok <==> MIN_SECOND <= second <= MAX_SECOND,
        r matches Ok(parts) ==> parts == (second, 0i32),
{
    let timestamp = jiff::Timestamp::from_second(second)?;
    Ok((timestamp.as_second(), timestamp.subsec_nanosecond()))
}

/// Calls `jiff::Timestamp::from_microsecond`, and gives the seconds and the
/// nanoseconds of the instant it builds, which have the same sign. It fails
/// exactly on microseconds before the second `MIN_SECOND` or after the second
/// `MAX_SECOND`.
#[verifier::external_body]
fn jiff_from_microsecond(microsecond: i64) -> (r: Result<(i64, i32), jiff::Error>)
    ensures
        r is Ok <==> MIN_SECOND * 1_000_000 <= microsecond <= MAX_SECOND * 1_000_000,
        r matches Ok(parts) ==> {
            &&& parts.0 * 1_000_000_000 + parts.1 == microsecond * 1_000
            &&& -1_000_000_000 < parts.1 < 1_000_000_000
            &&& parts.0 > 0 ==> parts.1 >= 0
            &&& parts.0 < 0 ==> parts.1 <= 0
        },
{
    let timestamp = jiff::Timestamp::from_microsecond(microsecond)?;
    Ok((timestamp.as_second(), timestamp.subsec_nanosecond()))
}

/// Calls `jiff::tz::Offset::to_datetime` on the offset zero: the date and time
/// in UTC, in the proleptic Gregorian calendar, of the second in which the
/// instant lies.
#[verifier::external_body]
fn jiff_utc_datetime(timestamp: Timestamp) -> (r: DateTime)
    requires
        timestamp.inv(),
    ensures
        r.valid(),
        r@.epoch_second() == timestamp@ / 1_000_000_000,
{
    let ts = jiff::Timestamp::new(timestamp.second, timestamp.nanosecond).unwrap();
    let dt = jiff::tz::Offset::UTC.to_datetime(ts);
    DateTime {
        year: dt.year(),
        month: dt.month(),
        day: dt.day(),
        hour: dt.hour(),
        minute: dt.minute(),
        second: dt.second(),
    }
}

/// The date and time that `jiff::Timestamp::to_zoned` shows for an instant in
/// a time zone of the database that is compiled into jiff; `None` where that
/// database has no zone of the name.
pub uninterp spec fn zoned_datetime(nanos: int, zone: Seq<char>) -> Option<DateTime>;

/// Calls `jiff::Timestamp::to_zoned` with the zone that
/// `jiff::tz::TimeZoneDatabase::get` finds under `zone` in the database that is
/// compiled into jiff. The fields are those of a date and time that exist. The
/// database has `Europe/Stockholm`. How far the zone is from UTC at an instant is
/// in the database, and is not stated here.
#[verifier::external_body]
fn jiff_zoned_datetime(timestamp: Timestamp, zone: &str) -> (r: Result<DateTime, jiff::Error>)
    requires
        timestamp.inv(),
    ensures
        zoned_datetime(timestamp@, zone@) == (match r {
            Ok(dt) => Some(dt),
            Err(_) => None,
        }),
        r matches Ok(dt) ==> dt.valid(),
        zone@ == "Europe/Stockholm"@ ==> r is Ok,
{
    let ts = jiff::Timestamp::new(timestamp.second, timestamp.nanosecond).unwrap();
    let zoned = ts.to_zoned(jiff::tz::TimeZoneDatabase::bundled().get(zone)?);
    Ok(DateTime {
        year: zoned.year(),
        month: zoned.month(),
        day: zoned.day(),
        hour: zoned.hour(),
        minute: zoned.minute(),
        second: zoned.second(),
    })
}

/// Calls `time::Date::from_calendar_date`, with the month taken from its number
/// by `time::Month::try_from`. It fails exactly where there is no such day, or
/// the year is not in `-9999..=9999`; otherwise the date has the given parts.
#[verifier::external_body]
fn time_calendar_date(year: i32, month: u8, day: u8) -> (r: Result<(i32, u8, u8), ComponentRange>)
    ensures
        (r is Ok) == (-9999 <= year <= 9999 && valid_date(year as int, month as int, day as int)),
        r matches Ok(parts) ==> parts == (year, month, day),
{
    let date = time::Date::from_calendar_date(year, time::Month::try_from(month)?, day)?;
    Ok((date.year(), u8::from(date.month()), date.day()))
}

/// Calls `time::Time::from_hms`. It fails exactly where a part is out of range;
/// otherwise the time has the given parts.
#[verifier::external_body]
fn time_from_hms(hour: u8, minute: u8, second: u8) -> (r: Result<(u8, u8, u8), ComponentRange>)
    ensures
        (r is Ok) == valid_time(hour as int, minute as int, second as int),
        r matches Ok(parts) ==> parts == (hour, minute, second),
{
    let time = time::Time::from_hms(hour, minute, second)?;
    Ok(time.as_hms())
}

/// Calls `unix_timestamp` on what `time::PrimitiveDateTime::assume_utc` makes
/// of the date and time: the seconds from the Unix epoch, in the proleptic
/// Gregorian calendar.
#[verifier::external_body]
fn time_unix_timestamp(dt: PrimitiveDateTime) -> (r: i64)
    requires
        dt.valid(),
    ensures
        r == dt@.epoch_second(),
{
    let month = time::Month::try_from(dt.month).unwrap();
    let date = time::Date::from_calendar_date(dt.year, month, dt.day).unwrap();
    let time = time::Time::from_hms(dt.hour, dt.minute, dt.second).unwrap();
    time::PrimitiveDateTime::new(date, time).assume_utc().unix_timestamp()
}

impl Timestamp {
    #[verifier::type_invariant]
    closed spec fn inv(self) -> bool {
        &&& in_range(self@)
        &&& -1_000_000_000 < self.nanosecond < 1_000_000_000
        &&& self.second > 0 ==> self.nanosecond >= 0
        &&& self.second < 0 ==> self.nanosecond <= 0
    }

    /// The instant `second` seconds after the Unix epoch, if it is in range.
    pub fn from_second(second: i64) -> (r: Option<Timestamp>)
        ensures
            r is Some <==> in_range(second * 1_000_000_000),
            r matches Some(ts) ==> ts@ == second * 1_000_000_000,
    {
        match jiff_from_second(second) {
            Ok(parts) => Some(Timestamp { second: parts.0, nanosecond: parts.1 }),
            Err(_) => None,
        }
    }

    /// The instant `microsecond` microseconds after the Unix epoch, if it is
    /// not after the start of the last second in range.
    pub fn from_microsecond(microsecond: i64) -> (r: Option<Timestamp>)
        ensures
            r is Some <==> MIN_SECOND * 1_000_000 <= microsecond <= MAX_SECOND * 1_000_000,
            r matches Some(ts) ==> ts@ == microsecond * 1_000,
    {
        match jiff_from_microsecond(microsecond) {
            Ok(parts) => Some(Timestamp { second: parts.0, nanosecond: parts.1 }),
            Err(_) => None,
        }
    }

    /// The whole seconds from the Unix epoch, rounded towards it.
    pub fn as_second(self) -> (r: i64)
        ensures
            r == if self@ >= 0 {
                self@ / 1_000_000_000
            } else {
                -(-self@ / 1_000_000_000)
            },
    {
        proof {
            use_type_invariant(self);
        }
        self.second
    }

    /// The nanoseconds beyond the whole seconds, negative before the Unix epoch.
    pub fn subsec_nanosecond(self) -> (r: i32)
        ensures
            r == if self@ >= 0 {
                self@ % 1_000_000_000
            } else {
                -(-self@ % 1_000_000_000)
            },
    {
        proof {
            use_type_invariant(self);
        }
        self.nanosecond
    }
}

impl PrimitiveDateTime {
    /// Whether the parts name a second of a day between the years -9999 and 9999.
    pub open spec fn valid(self) -> bool {
        -9999 <= self@.year <= 9999 && self@.valid()
    }

    #[verifier::type_invariant]
    closed spec fn inv(self) -> bool {
        self.valid()
    }

    /// The date and time with the given parts, if there is one.
    pub fn from_parts(year: i32, month: u8, day: u8, hour: u8, minute: u8, second: u8) -> (r: Option<
        PrimitiveDateTime,
    >)
        ensures
            r is Some <==> -9999 <= year <= 9999 && valid_date(year as int, month as int, day as int)
                && valid_time(hour as int, minute as int, second as int),
            r matches Some(dt) ==> {
                &&& dt.valid()
                &&& dt@ == (Civil {
                    year: year as int,
                    month: month as int,
                    day: day as int,
                    hour: hour as int,
                    minute: minute as int,
                    second: second as int,
                })
            },
    {
        let date = time_calendar_date(year, month, day).ok()?;
        let time = time_from_hms(hour, minute, second).ok()?;
        Some(
            PrimitiveDateTime {
                year: date.0,
                month: date.1,
                day: date.2,
                hour: time.0,
                minute: time.1,
                second: time.2,
            },
        )
    }

    /// The year.
    pub fn year(&self) -> (r: i32)
        ensures
            r == self@.year,
    {
        self.year
    }

    /// The month, from 1.
    pub fn month(&self) -> (r: u8)
        ensures
            r == self@.month,
    {
        self.month
    }

    /// The day of the month, from 1.
    pub fn day(&self) -> (r: u8)
        ensures
            r == self@.day,
    {
        self.day
    }

    /// The hour.
    pub fn hour(&self) -> (r: u8)
        ensures
            r == self@.hour,
    {
        self.hour
    }

    /// The minute.
    pub fn minute(&self) -> (r: u8)
        ensures
            r == self@.minute,
    {
        self.minute
    }

    /// The second.
    pub fn second(&self) -> (r: u8)
        ensures
            r == self@.second,
    {
        self.second
    }
}

/// Whether `dt` is the date and time (UTC) of the second in which the instant lies.
pub open spec fn shows(dt: PrimitiveDateTime, nanos: int) -> bool {
    dt.valid() && dt@.epoch_second() == nanos / 1_000_000_000
}

/// The date and time (UTC) of the second in which the instant lies.
pub open spec fn utc_datetime(nanos: int) -> PrimitiveDateTime {
    choose|dt: PrimitiveDateTime| shows(dt, nanos)
}

/// The instant at which the date and time (UTC) begins, if a [`Timestamp`] can hold it.
pub open spec fn instant_of(dt: PrimitiveDateTime) -> Option<int> {
    if in_range(dt@.epoch_second() * 1_000_000_000) {
        Some(dt@.epoch_second() * 1_000_000_000)
    } else {
        None
    }
}

/// The date and time that the zone [`TIMEZONE`] shows at the instant.
pub open spec fn local_datetime(nanos: int) -> DateTime {
    zoned_datetime(nanos, TIMEZONE@).unwrap()
}

/// Converts an instant to the date and time (UTC) for the real-time clock,
/// dropping what is below the second. Every instant has one.
pub fn unix_to_primitive_datetime(timestamp: Timestamp) -> (r: Option<PrimitiveDateTime>)
    ensures
        r == Some(utc_datetime(timestamp@)),
        shows(utc_datetime(timestamp@), timestamp@),
{
    proof {
        use_type_invariant(timestamp);
    }
    let dt = jiff_utc_datetime(timestamp);
    let r = PrimitiveDateTime::from_parts(
        dt.year as i32,
        dt.month as u8,
        dt.day as u8,
        dt.hour as u8,
        dt.minute as u8,
        dt.second as u8,
    );
    proof {
        assert(r->0@ == dt@);
        assert(shows(r->0, timestamp@));
        law_one_datetime_shows(r->0, utc_datetime(timestamp@), timestamp@);
    }
    r
}

/// Converts a date and time (UTC) read from the real-time clock to the instant
/// at which that second begins.
pub fn rtc_to_jiff(dt: PrimitiveDateTime) -> (r: Option<Timestamp>)
    ensures
        (match r {
            Some(ts) => Some(ts@),
            None => None,
        }) == instant_of(dt),
{
    proof {
        use_type_invariant(dt);
    }
    Timestamp::from_second(time_unix_timestamp(dt))
}

/// The date and time on the wall at the instant.
pub fn local_time(timestamp: Timestamp) -> (r: DateTime)
    ensures
        r == local_datetime(timestamp@),
        r.valid(),
{
    proof {
        use_type_invariant(timestamp);
    }
    jiff_zoned_datetime(timestamp, TIMEZONE).ok().unwrap()
}

/// Only one date and time (UTC) is that of an instant.
pub proof fn law_one_datetime_shows(a: PrimitiveDateTime, b: PrimitiveDateTime, nanos: int)
    requires
        shows(a, nanos),
        shows(b, nanos),
    ensures
        a == b,
{
    law_epoch_second_is_unique(a@, b@);
}

/// Every instant has a date and time (UTC).
pub proof fn law_every_instant_is_shown(nanos: int)
    requires
        in_range(nanos),
    ensures
        shows(utc_datetime(nanos), nanos),
{
    assert(epoch_day(-9999, 1, 1) == -4371587 && epoch_day(9999, 12, 31) == 2932896) by {
        reveal_with_fuel(days_before_month, 13);
    }
    let civil = law_every_second_has_a_civil(nanos / 1_000_000_000);
    let dt = PrimitiveDateTime {
        year: civil.year as i32,
        month: civil.month as u8,
        day: civil.day as u8,
        hour: civil.hour as u8,
        minute: civil.minute as u8,
        second: civil.second as u8,
    };
    assert(dt@ == civil);
    assert(shows(dt, nanos));
}

/// Setting the clock to an instant and reading it back gives the start of the
/// second in which the instant lies: nothing but the fraction is lost.
pub proof fn law_set_then_read(nanos: int)
    requires
        in_range(nanos),
    ensures
        instant_of(utc_datetime(nanos)) == Some(nanos - nanos % 1_000_000_000),
{
    law_every_instant_is_shown(nanos);
}

/// Reading the clock and setting it to the instant that was read leaves it as
/// it was.
pub proof fn law_read_then_set(dt: PrimitiveDateTime)
    requires
        dt.valid(),
        instant_of(dt) is Some,
    ensures
        utc_datetime(instant_of(dt).unwrap()) == dt,
{
    let nanos = instant_of(dt).unwrap();
    assert(shows(dt, nanos));
    law_one_datetime_shows(dt, utc_datetime(nanos), nanos);
}

/// The instants reach from -9999-01-02 01:59:59 to the end of the second
/// 9999-12-30 22:00:00.
pub proof fn law_range_of_instants(nanos: int)
    ensures
        in_range(nanos) <==> -377_705_023_201 * 1_000_000_000 <= nanos < 253_402_207_201
            * 1_000_000_000,
{
}

/// The date and time (UTC) of an instant exists, begins at the instant or less than
/// a second before it, and has a year of four digits.
pub proof fn law_utc_is_less_than_a_second_behind(nanos: int)
    requires
        in_range(nanos),
    ensures
        ({
            let civil = utc_datetime(nanos)@;
            &&& civil.valid()
            &&& -9999 <= civil.year <= 9999
            &&& civil.epoch_second() * 1_000_000_000 <= nanos < (civil.epoch_second() + 1)
                * 1_000_000_000
        }),
{
    law_every_instant_is_shown(nanos);
}

/// A date and time (UTC) is at an instant exactly if its second is one that can be
/// held, and then at the start of that second.
pub proof fn law_instant_is_the_start_of_the_second(dt: PrimitiveDateTime)
    ensures
        instant_of(dt) is Some <==> -377_705_023_201 <= dt@.epoch_second() <= 253_402_207_200,
        instant_of(dt) matches Some(nanos) ==> nanos == dt@.epoch_second() * 1_000_000_000,
        dt.valid() <==> -9999 <= dt@.year <= 9999 && dt@.valid(),
{
}

/// The local date and time is what the zone of Stockholm shows.
pub proof fn law_local_time_is_that_of_stockholm(nanos: int)
    ensures
        zoned_datetime(nanos, "Europe/Stockholm"@) matches Some(dt) ==> local_datetime(nanos) == dt,
{
}

/// The numbers of a date and time are its fields, and it is valid exactly if its year
/// has at most four digits and the calendar has its second.
pub proof fn law_fields_are_the_numbers(dt: DateTime)
    ensures
        dt@.year == dt.year && dt@.month == dt.month && dt@.day == dt.day,
        dt@.hour == dt.hour && dt@.minute == dt.minute && dt@.second == dt.second,
        dt.valid() <==> -9999 <= dt.year <= 9999 && valid_date(
            dt.year as int,
            dt.month as int,
            dt.day as int,
        ) && valid_time(dt.hour as int, dt.minute as int, dt.second as int),
{
}

} // verus!
