//! The proleptic Gregorian calendar, counted in days and seconds from the Unix epoch.

use vstd::arithmetic::div_mod::lemma_fundamental_div_mod_converse;
use vstd::prelude::*;

verus! {

/// A date and a time of day, as numbers.
pub struct Civil {
    pub year: int,
    pub month: int,
    pub day: int,
    pub hour: int,
    pub minute: int,
    pub second: int,
}

/// Whether `year` has a 29th of February.
pub open spec fn is_leap_year(year: int) -> bool {
    year % 4 == 0 && (year % 100 != 0 || year % 400 == 0)
}

/// How many days the month has.
pub open spec fn days_in_month(year: int, month: int) -> int {
    if month == 2 {
        if is_leap_year(year) { 29 } else { 28 }
    } else if month == 4 || month == 6 || month == 9 || month == 11 {
        30
    } else {
        31
    }
}

/// Whether the three numbers name a day of the calendar.
pub open spec fn valid_date(year: int, month: int, day: int) -> bool {
    1 <= month <= 12 && 1 <= day <= days_in_month(year, month)
}

/// Whether the three numbers name a second of a day.
pub open spec fn valid_time(hour: int, minute: int, second: int) -> bool {
    0 <= hour < 24 && 0 <= minute < 60 && 0 <= second < 60
}

/// Days from the first of January of year 1 to the first of January of `year`.
pub open spec fn days_before_year(year: int) -> int {
    365 * (year - 1) + (year - 1) / 4 - (year - 1) / 100 + (year - 1) / 400
}

/// Days from the first of January of `year` to the first of `month`.
pub open spec fn days_before_month(year: int, month: int) -> int
    decreases month,
{
    if month <= 1 {
        0
    } else {
        days_before_month(year, month - 1) + days_in_month(year, month - 1)
    }
}

/// Days from 1970-01-01 to the given date. From 0001-01-01 to 1970-01-01
/// there are 719162.
pub open spec fn epoch_day(year: int, month: int, day: int) -> int {
    days_before_year(year) + days_before_month(year, month) + (day - 1) - 719162
}

impl Civil {
    /// Whether the numbers name a second of a day of the calendar.
    pub open spec fn valid(self) -> bool {
        valid_date(self.year, self.month, self.day) && valid_time(
            self.hour,
            self.minute,
            self.second,
        )
    }

    /// Seconds from 1970-01-01 00:00:00 to the date and time, both in UTC.
    pub open spec fn epoch_second(self) -> int {
        86400 * epoch_day(self.year, self.month, self.day) + 3600 * self.hour + 60 * self.minute
            + self.second
    }
}

proof fn lemma_days_before_month(year: int, month: int)
    requires
        1 <= month <= 12,
    ensures
        0 <= days_before_month(year, month),
        days_before_month(year, month) + days_in_month(year, month) <= if is_leap_year(year) {
            366int
        } else {
            365int
        },
{
    reveal_with_fuel(days_before_month, 13);
}

proof fn lemma_months_in_order(year: int, m1: int, m2: int)
    requires
        1 <= m1 < m2 <= 12,
    ensures
        days_before_month(year, m1) + days_in_month(year, m1) <= days_before_month(year, m2),
    decreases m2,
{
    if m1 + 1 < m2 {
        lemma_months_in_order(year, m1, m2 - 1);
    }
}

proof fn lemma_multiples_up_to(n: int)
    ensures
        n / 4 == (n - 1) / 4 + if n % 4 == 0 { 1int } else { 0int },
        n / 100 == (n - 1) / 100 + if n % 100 == 0 { 1int } else { 0int },
        n / 400 == (n - 1) / 400 + if n % 400 == 0 { 1int } else { 0int },
{
}

proof fn lemma_year_length(year: int)
    ensures
        days_before_year(year + 1) == days_before_year(year) + if is_leap_year(year) {
            366int
        } else {
            365int
        },
{
    lemma_multiples_up_to(year);
    assert(year % 400 == 0 ==> year % 100 == 0);
    assert(year % 100 == 0 ==> year % 4 == 0);
}

proof fn lemma_years_in_order(y1: int, y2: int)
    requires
        y1 < y2,
    ensures
        days_before_year(y1) + if is_leap_year(y1) { 366int } else { 365int } <= days_before_year(y2),
    decreases y2 - y1,
{
    lemma_year_length(y1);
    if y1 + 1 < y2 {
        lemma_years_in_order(y1 + 1, y2);
    }
}

/// A later date has a greater day number: the calendar is in order.
pub proof fn law_epoch_day_in_order(y1: int, m1: int, d1: int, y2: int, m2: int, d2: int)
    requires
        valid_date(y1, m1, d1),
        valid_date(y2, m2, d2),
        y1 < y2 || (y1 == y2 && (m1 < m2 || (m1 == m2 && d1 < d2))),
    ensures
        epoch_day(y1, m1, d1) < epoch_day(y2, m2, d2),
{
    lemma_days_before_month(y1, m1);
    lemma_days_before_month(y2, m2);
    if y1 < y2 {
        lemma_years_in_order(y1, y2);
    } else if m1 < m2 {
        lemma_months_in_order(y1, m1, m2);
    }
}

/// Every second has at most one date and time: no two of them count the same
/// number of seconds from the epoch.
pub proof fn law_epoch_second_is_unique(a: Civil, b: Civil)
    requires
        a.valid(),
        b.valid(),
        a.epoch_second() == b.epoch_second(),
    ensures
        a == b,
{
    let da = epoch_day(a.year, a.month, a.day);
    let db = epoch_day(b.year, b.month, b.day);
    assert(da == db);
    if a.year < b.year || (a.year == b.year && (a.month < b.month || (a.month == b.month && a.day
        < b.day))) {
        law_epoch_day_in_order(a.year, a.month, a.day, b.year, b.month, b.day);
    }
    if b.year < a.year || (a.year == b.year && (b.month < a.month || (a.month == b.month && b.day
        < a.day))) {
        law_epoch_day_in_order(b.year, b.month, b.day, a.year, a.month, a.day);
    }
}

proof fn lemma_year_of_day(n: int, from: int) -> (year: int)
    requires
        days_before_year(from) <= n,
    ensures
        from <= year,
        days_before_year(year) <= n < days_before_year(year + 1),
    decreases n - days_before_year(from),
{
    lemma_year_length(from);
    if n < days_before_year(from + 1) {
        from
    } else {
        lemma_year_of_day(n, from + 1)
    }
}

proof fn lemma_month_of_day(year: int, n: int, from: int) -> (month: int)
    requires
        1 <= from <= 12,
        days_before_month(year, from) <= n,
        n < if is_leap_year(year) { 366int } else { 365int },
    ensures
        1 <= month <= 12,
        days_before_month(year, month) <= n < days_before_month(year, month) + days_in_month(
            year,
            month,
        ),
    decreases 12 - from,
{
    if n < days_before_month(year, from) + days_in_month(year, from) {
        from
    } else {
        if from == 12 {
            reveal_with_fuel(days_before_month, 13);
        }
        lemma_month_of_day(year, n, from + 1)
    }
}

/// Every day from -9999-01-01 to 9999-12-31 has a date.
pub proof fn law_every_day_has_a_date(day_number: int) -> (r: (int, int, int))
    requires
        epoch_day(-9999, 1, 1) <= day_number <= epoch_day(9999, 12, 31),
    ensures
        valid_date(r.0, r.1, r.2),
        -9999 <= r.0 <= 9999,
        epoch_day(r.0, r.1, r.2) == day_number,
{
    let n = day_number + 719162;
    let year = lemma_year_of_day(n, -9999);
    assert(year <= 9999) by {
        lemma_days_before_month(9999, 12);
        lemma_year_length(9999);
        if year > 9999 {
            lemma_years_in_order(9999, year);
        }
    }
    lemma_year_length(year);
    let month = lemma_month_of_day(year, n - days_before_year(year), 1);
    let day = n - days_before_year(year) - days_before_month(year, month) + 1;
    (year, month, day)
}

/// Every second of those days has a date and time.
pub proof fn law_every_second_has_a_civil(second: int) -> (r: Civil)
    requires
        86400 * epoch_day(-9999, 1, 1) <= second < 86400 * (epoch_day(9999, 12, 31) + 1),
    ensures
        r.valid(),
        -9999 <= r.year <= 9999,
        r.epoch_second() == second,
{
    let (year, month, day) = law_every_day_has_a_date(second / 86400);
    let rest = second % 86400;
    Civil { year, month, day, hour: rest / 3600, minute: rest % 3600 / 60, second: rest % 60 }
}

/// Which days the calendar has: no month has more than 31 days, and April, June,
/// September and November have 30; February has 28, and 29 in every fourth year
/// but for the full centuries that 400 does not divide.
pub proof fn law_days_of_the_calendar(year: int, month: int, day: int)
    ensures
        valid_date(year, month, day) ==> 1 <= month <= 12 && 1 <= day <= 31,
        1 <= month <= 12 && 1 <= day <= 28 ==> valid_date(year, month, day),
        1 <= month <= 12 && month != 2 && day <= 30 && day >= 1 ==> valid_date(year, month, day),
        valid_date(year, month, 31) <==> (month == 1 || month == 3 || month == 5 || month == 7
            || month == 8 || month == 10 || month == 12),
        !valid_date(year, 2, 30),
        year % 4 != 0 ==> !valid_date(year, 2, 29),
        year % 4 == 0 && year % 100 != 0 ==> valid_date(year, 2, 29),
        year % 100 == 0 && year % 400 != 0 ==> !valid_date(year, 2, 29),
        year % 400 == 0 ==> valid_date(year, 2, 29),
{
}

/// Days are numbered one after another from 1970-01-01: the day after a day has
/// the next number, within a month, from a month to the next, and from a year to
/// the next.
pub proof fn law_days_follow_each_other(year: int, month: int, day: int)
    requires
        valid_date(year, month, day),
    ensures
        epoch_day(1970, 1, 1) == 0,
        valid_date(year, month, day + 1) ==> epoch_day(year, month, day + 1) == epoch_day(
            year,
            month,
            day,
        ) + 1,
        !valid_date(year, month, day + 1) && month < 12 ==> epoch_day(year, month + 1, 1)
            == epoch_day(year, month, day) + 1,
        !valid_date(year, month, day + 1) && month == 12 ==> epoch_day(year + 1, 1, 1)
            == epoch_day(year, month, day) + 1,
{
    if month == 12 {
        reveal_with_fuel(days_before_month, 13);
        lemma_year_length(year);
    }
}

proof fn lemma_parts_of_a_second(day: int, hour: int, minute: int, second: int)
    requires
        0 <= hour < 24,
        0 <= minute < 60,
        0 <= second < 60,
    ensures
        ({
            let total = 86400 * day + 3600 * hour + 60 * minute + second;
            &&& total / 86400 == day
            &&& total % 86400 / 3600 == hour
            &&& total % 3600 / 60 == minute
            &&& total % 60 == second
        }),
{
    let total = 86400 * day + 3600 * hour + 60 * minute + second;
    let of_day = 3600 * hour + 60 * minute + second;
    let of_hour = 60 * minute + second;
    lemma_fundamental_div_mod_converse(total, 86400, day, of_day);
    lemma_fundamental_div_mod_converse(of_day, 3600, hour, of_hour);
    lemma_fundamental_div_mod_converse(total, 3600, 24 * day + hour, of_hour);
    lemma_fundamental_div_mod_converse(of_hour, 60, minute, second);
    lemma_fundamental_div_mod_converse(total, 60, 1440 * day + 60 * hour + minute, second);
}

/// A day has 24 hours of 60 minutes of 60 seconds, and the seconds of the days are
/// counted one after another.
pub proof fn law_seconds_of_a_day(civil: Civil)
    requires
        civil.valid(),
    ensures
        0 <= civil.hour <= 23,
        0 <= civil.minute <= 59,
        0 <= civil.second <= 59,
        civil.epoch_second() / 86400 == epoch_day(civil.year, civil.month, civil.day),
        civil.epoch_second() % 86400 / 3600 == civil.hour,
        civil.epoch_second() % 3600 / 60 == civil.minute,
        civil.epoch_second() % 60 == civil.second,
{
    let day = epoch_day(civil.year, civil.month, civil.day);
    lemma_parts_of_a_second(day, civil.hour, civil.minute, civil.second);
}

/// Every time of every day of the calendar is valid, and nothing else is.
pub proof fn law_valid_civil(civil: Civil)
    ensures
        civil.valid() <==> valid_date(civil.year, civil.month, civil.day) && 0 <= civil.hour <= 23
            && 0 <= civil.minute <= 59 && 0 <= civil.second <= 59,
        valid_time(civil.hour, civil.minute, civil.second) <==> 0 <= civil.hour <= 23 && 0
            <= civil.minute <= 59 && 0 <= civil.second <= 59,
{
}

} // verus!
