//! The Gregorian calendar: day counts since 1970-01-01 and their dates.

use vstd::prelude::*;

verus! {

/// Whether a year has a 29th of February.
pub open spec fn is_leap(y: int) -> bool {
    y % 4 == 0 && (y % 100 != 0 || y % 400 == 0)
}

/// The number of days in a year.
pub open spec fn days_in_year(y: int) -> int {
    if is_leap(y) {
        366
    } else {
        365
    }
}

/// The number of days in a month of a year.
pub open spec fn days_in_month(y: int, m: int) -> int {
    if m == 2 {
        if is_leap(y) {
            29
        } else {
            28
        }
    } else if m == 4 || m == 6 || m == 9 || m == 11 {
        30
    } else {
        31
    }
}

/// The number of days from 1970-01-01 to the first of January of a year.
pub open spec fn days_before_year(y: int) -> int
    decreases y,
{
    if y <= 1970 {
        0
    } else {
        days_before_year(y - 1) + days_in_year(y - 1)
    }
}

/// The number of days of a year that precede the first of a month.
pub open spec fn days_before_month(y: int, m: int) -> int
    decreases m,
{
    if m <= 1 {
        0
    } else {
        days_before_month(y, m - 1) + days_in_month(y, m - 1)
    }
}

/// Whether the calendar has the given date.
pub open spec fn is_date(y: int, m: int, d: int) -> bool {
    1970 <= y && 1 <= m <= 12 && 1 <= d <= days_in_month(y, m)
}

/// The number of days from 1970-01-01 to the given date.
pub open spec fn day_number(y: int, m: int, d: int) -> int {
    days_before_year(y) + days_before_month(y, m) + d - 1
}

/// The number of leap years among the years 1 to `y`.
spec fn leaps_through(y: int) -> int {
    y / 4 - y / 100 + y / 400
}

proof fn lemma_leap_step(y: int)
    requires
        y >= 1,
    ensures
        leaps_through(y) - leaps_through(y - 1) == (if is_leap(y) { 1int } else { 0int }),
{
    assert(y / 4 - (y - 1) / 4 == (if y % 4 == 0 { 1int } else { 0int }));
    assert(y / 100 - (y - 1) / 100 == (if y % 100 == 0 { 1int } else { 0int }));
    assert(y / 400 - (y - 1) / 400 == (if y % 400 == 0 { 1int } else { 0int }));
}

proof fn lemma_days_before_year(y: int)
    requires
        y >= 1970,
    ensures
        days_before_year(y) == 365 * (y - 1970) + leaps_through(y - 1) - 477,
    decreases y,
{
    if y > 1970 {
        lemma_days_before_year(y - 1);
        lemma_leap_step(y - 1);
    }
}

proof fn lemma_days_before_month(y: int)
    ensures
        days_before_month(y, 1) == 0,
        days_before_month(y, 2) == 31,
        days_before_month(y, 3) == 31 + days_in_month(y, 2),
        days_before_month(y, 4) == 62 + days_in_month(y, 2),
        days_before_month(y, 5) == 92 + days_in_month(y, 2),
        days_before_month(y, 6) == 123 + days_in_month(y, 2),
        days_before_month(y, 7) == 153 + days_in_month(y, 2),
        days_before_month(y, 8) == 184 + days_in_month(y, 2),
        days_before_month(y, 9) == 215 + days_in_month(y, 2),
        days_before_month(y, 10) == 245 + days_in_month(y, 2),
        days_before_month(y, 11) == 276 + days_in_month(y, 2),
        days_before_month(y, 12) == 306 + days_in_month(y, 2),
        days_before_month(y, 13) == days_in_year(y),
{
    reveal_with_fuel(days_before_month, 14);
}

/// The days of a 400-year era that precede its `yoe`-th year, where years begin on the first of
/// March.
spec fn era_year_start(yoe: int) -> int {
    365 * yoe + yoe / 4 - yoe / 100
}

proof fn lemma_year_of_era(doe: int, yoe: int)
    requires
        0 <= doe <= 146096,
        yoe == (doe - doe / 1460 + doe / 36524 - doe / 146096) / 365,
    ensures
        0 <= yoe <= 399,
        era_year_start(yoe) <= doe,
        yoe < 399 ==> doe < era_year_start(yoe + 1),
        doe - era_year_start(yoe) <= 365,
{
    let a = doe / 1460;
    let b = doe / 36524;
    let c = doe / 146096;
    assert(0 <= b <= 4);
    assert(0 <= c <= 1);
    assert(b == 4 <==> doe == 146096);
    assert(c == 1 <==> doe == 146096);
}

/// Where a date stands in the year that begins on the first of March.
proof fn lemma_month_of_march_year(doy: int, mp: int)
    requires
        0 <= doy <= 365,
        mp == (5 * doy + 2) / 153,
    ensures
        0 <= mp <= 11,
        mp < 10 <==> doy < 306,
        0 <= doy - (153 * mp + 2) / 5,
        mp == 0 || mp == 2 || mp == 4 || mp == 5 || mp == 7 || mp == 9 || mp == 10 ==> doy - (153
            * mp + 2) / 5 <= 30,
        mp == 1 || mp == 3 || mp == 6 || mp == 8 ==> doy - (153 * mp + 2) / 5 <= 29,
        mp == 11 ==> doy - (153 * mp + 2) / 5 == doy - 337,
{
}

/// The first of March of the year `400 * era + yoe` in days since 1970-01-01.
proof fn lemma_first_of_march(era: int, yoe: int)
    requires
        0 <= era,
        0 <= yoe <= 399,
        400 * era + yoe >= 1969,
    ensures
        days_before_year(400 * era + yoe + 1) - 306 == 146097 * era + era_year_start(yoe) - 719468,
{
    let y = 400 * era + yoe;
    lemma_days_before_year(y + 1);
    assert(y / 4 == 100 * era + yoe / 4);
    assert(y / 100 == 4 * era + yoe / 100);
    assert(y / 400 == era);
}

/// A year of an era has a 366th day only if the February at its end is a long one.
proof fn lemma_long_year(era: int, yoe: int, doe: int)
    requires
        0 <= yoe <= 399,
        yoe < 399 ==> doe < era_year_start(yoe + 1),
        doe - era_year_start(yoe) == 365,
    ensures
        is_leap(400 * era + yoe + 1),
{
    let n = yoe + 1;
    let y = 400 * era + n;
    assert(y % 4 == n % 4);
    if yoe < 399 {
        assert(n / 4 - yoe / 4 == (if n % 4 == 0 { 1int } else { 0int }));
        assert(n / 100 - yoe / 100 == (if n % 100 == 0 { 1int } else { 0int }));
        assert(y % 100 == n % 100);
    } else {
        assert(y == 400 * (era + 1));
        assert(y % 400 == 0);
    }
}

proof fn lemma_civil_from_days(days: int, era: int, doe: int, yoe: int, doy: int, mp: int)
    requires
        0 <= days,
        days + 719468 == 146097 * era + doe,
        0 <= era,
        0 <= doe <= 146096,
        yoe == (doe - doe / 1460 + doe / 36524 - doe / 146096) / 365,
        doy == doe - era_year_start(yoe),
        mp == (5 * doy + 2) / 153,
    ensures
        0 <= mp <= 11,
        0 <= doy - (153 * mp + 2) / 5,
        ({
            let y = 400 * era + yoe;
            let d = doy - (153 * mp + 2) / 5 + 1;
            if mp < 10 {
                is_date(y, mp + 3, d) && day_number(y, mp + 3, d) == days
            } else {
                is_date(y + 1, mp - 9, d) && day_number(y + 1, mp - 9, d) == days
            }
        }),
{
    let y = 400 * era + yoe;
    let d = doy - (153 * mp + 2) / 5 + 1;
    lemma_year_of_era(doe, yoe);
    lemma_month_of_march_year(doy, mp);
    assert(y >= 1969) by {
        if y < 1969 {
            if era < 4 {
            } else {
                assert(era == 4);
                assert(yoe <= 368);
                assert(era_year_start(yoe) <= 365 * 368 + 92 - 3);
            }
        }
    }
    lemma_first_of_march(era, yoe);
    if doy == 365 {
        lemma_long_year(era, yoe, doe);
    }
    if mp < 10 {
        assert(y >= 1970);
        lemma_days_before_month(y);
        assert(days_before_year(y + 1) == days_before_year(y) + days_in_year(y));
    } else {
        lemma_days_before_month(y + 1);
    }
}

proof fn lemma_days_before_month_monotone(y: int, m1: int, m2: int)
    requires
        1 <= m1 <= m2,
    ensures
        days_before_month(y, m1) <= days_before_month(y, m2),
    decreases m2,
{
    if m1 < m2 {
        lemma_days_before_month_monotone(y, m1, m2 - 1);
    }
}

proof fn lemma_days_before_year_monotone(y1: int, y2: int)
    requires
        1970 <= y1 <= y2,
    ensures
        days_before_year(y1) <= days_before_year(y2),
    decreases y2,
{
    if y1 < y2 {
        lemma_days_before_year_monotone(y1, y2 - 1);
    }
}

/// A later date has a larger day number.
pub proof fn day_number_is_increasing(y1: int, m1: int, d1: int, y2: int, m2: int, d2: int)
    requires
        is_date(y1, m1, d1),
        is_date(y2, m2, d2),
        y1 < y2 || (y1 == y2 && (m1 < m2 || (m1 == m2 && d1 < d2))),
    ensures
        day_number(y1, m1, d1) < day_number(y2, m2, d2),
{
    if y1 < y2 {
        lemma_days_before_year_monotone(y1 + 1, y2);
        assert(days_before_year(y1 + 1) == days_before_year(y1) + days_in_year(y1));
        assert(days_before_month(y1, m1 + 1) == days_before_month(y1, m1) + days_in_month(y1, m1));
        lemma_days_before_month_monotone(y1, m1 + 1, 13);
        lemma_days_before_month(y1);
        lemma_days_before_month_monotone(y2, 1, m2);
    } else if m1 < m2 {
        assert(days_before_month(y1, m1 + 1) == days_before_month(y1, m1) + days_in_month(y1, m1));
        lemma_days_before_month_monotone(y1, m1 + 1, m2);
    }
}

/// No two dates have the same day number, so that a day number determines its date.
pub proof fn day_number_determines_date(y1: int, m1: int, d1: int, y2: int, m2: int, d2: int)
    requires
        is_date(y1, m1, d1),
        is_date(y2, m2, d2),
        day_number(y1, m1, d1) == day_number(y2, m2, d2),
    ensures
        y1 == y2,
        m1 == m2,
        d1 == d2,
{
    if y1 < y2 || (y1 == y2 && (m1 < m2 || (m1 == m2 && d1 < d2))) {
        day_number_is_increasing(y1, m1, d1, y2, m2, d2);
    } else if y1 != y2 || m1 != m2 || d1 != d2 {
        day_number_is_increasing(y2, m2, d2, y1, m1, d1);
    }
}

/// The date with the given day number, as year, month and day.
pub closed spec fn date_of(days: int) -> (int, int, int) {
    choose|date: (int, int, int)|
        is_date(date.0, date.1, date.2) && #[trigger] day_number(date.0, date.1, date.2) == days
}

/// A date is the date of its own day number.
pub proof fn date_of_day_number(y: int, m: int, d: int)
    requires
        is_date(y, m, d),
    ensures
        date_of(day_number(y, m, d)) == (y, m, d),
{
    let n = day_number(y, m, d);
    let witness = (y, m, d);
    assert(is_date(witness.0, witness.1, witness.2) && day_number(witness.0, witness.1, witness.2)
        == n);
    let date = date_of(n);
    day_number_determines_date(date.0, date.1, date.2, y, m, d);
}

/// The date that is `days_since_epoch` days after 1970-01-01, as year, month and day.
pub fn days_to_date(days_since_epoch: u64) -> (date: (u64, u64, u64))
    requires
        days_since_epoch <= u64::MAX - 719468,
    ensures
        is_date(date.0 as int, date.1 as int, date.2 as int),
        day_number(date.0 as int, date.1 as int, date.2 as int) == days_since_epoch,
        date_of(days_since_epoch as int) == (date.0 as int, date.1 as int, date.2 as int),
{
    let z: u64 = days_since_epoch + 719468;
    let era: u64 = z / 146097;
    let doe: u64 = z - era * 146097;
    let yoe: u64 = (doe - doe / 1460 + doe / 36524 - doe / 146096) / 365;
    proof {
        lemma_year_of_era(doe as int, yoe as int);
    }
    let y: u64 = yoe + era * 400;
    let doy: u64 = doe - (365 * yoe + yoe / 4 - yoe / 100);
    let mp: u64 = (5 * doy + 2) / 153;
    proof {
        lemma_civil_from_days(
            days_since_epoch as int,
            era as int,
            doe as int,
            yoe as int,
            doy as int,
            mp as int,
        );
    }
    let d: u64 = doy - (153 * mp + 2) / 5 + 1;
    let m: u64 = if mp < 10 {
        mp + 3
    } else {
        mp - 9
    };
    let y: u64 = if m <= 2 {
        y + 1
    } else {
        y
    };
    proof {
        date_of_day_number(y as int, m as int, d as int);
    }
    (y, m, d)
}

/// A date that is found for a number of days is one of the calendar, has that number, and the day
/// after has the next: the same month's next day, or else the first of a later month. Every fourth
/// year is longer by a day, but of the full centuries only every fourth.
pub proof fn days_follow_each_other(days: u64, date: (u64, u64, u64), next: (u64, u64, u64), y: int)
    requires
        days < u64::MAX - 719468,
        call_ensures(days_to_date, (days,), date),
        call_ensures(days_to_date, ((days + 1) as u64,), next),
    ensures
        1 <= date.1 <= 12,
        1 <= date.2 <= 31,
        date.0 >= 1970,
        date.0 <= next.0,
        date.0 == next.0 ==> date.1 <= next.1,
        date.0 == next.0 && date.1 == next.1 ==> date.2 + 1 == next.2,
        days_in_year(y) == 366 <==> y % 400 == 0 || (y % 4 == 0 && y % 100 != 0),
        days_in_year(y) == 365 || days_in_year(y) == 366,
{
    if next.0 < date.0 || (next.0 == date.0 && next.1 < date.1) {
        day_number_is_increasing(
            next.0 as int,
            next.1 as int,
            next.2 as int,
            date.0 as int,
            date.1 as int,
            date.2 as int,
        );
    }
}

/// The first day is the first of January 1970, and the day after a date is the next of its month,
/// the first of the next month if it was the last, or the first of January of the next year.
pub proof fn the_next_day_is_the_next_date(days: u64, date: (u64, u64, u64), next: (u64, u64, u64))
    requires
        days < u64::MAX - 719468,
        call_ensures(days_to_date, (days,), date),
        call_ensures(days_to_date, ((days + 1) as u64,), next),
    ensures
        days == 0 ==> date == (1970u64, 1u64, 1u64),
        ({
            let leap = date.0 % 400 == 0 || (date.0 % 4 == 0 && date.0 % 100 != 0);
            let last = if date.1 == 2 {
                if leap {
                    29int
                } else {
                    28
                }
            } else if date.1 == 4 || date.1 == 6 || date.1 == 9 || date.1 == 11 {
                30
            } else {
                31
            };
            &&& date.2 <= last
            &&& date.2 < last ==> next.0 == date.0 && next.1 == date.1 && next.2 == date.2 + 1
            &&& date.2 == last && date.1 < 12 ==> next.0 == date.0 && next.1 == date.1 + 1 && next.2
                == 1
            &&& date.2 == last && date.1 == 12 ==> next.0 == date.0 + 1 && next.1 == 1 && next.2 == 1
        }),
{
    let (y, m, d) = (date.0 as int, date.1 as int, date.2 as int);
    let (ny, nm, nd) = if d < days_in_month(y, m) {
        (y, m, d + 1)
    } else if m < 12 {
        (y, m + 1, 1int)
    } else {
        (y + 1, 1int, 1int)
    };
    lemma_days_before_month(y);
    assert(days_before_year(y + 1) == days_before_year(y) + days_in_year(y));
    assert(is_date(ny, nm, nd));
    assert(day_number(ny, nm, nd) == day_number(y, m, d) + 1) by {
        reveal_with_fuel(days_before_month, 2);
    }
    lemma_same_number_same_date(ny, nm, nd, next.0 as int, next.1 as int, next.2 as int);
    if days == 0 {
        reveal_with_fuel(days_before_month, 2);
        assert(day_number(1970, 1, 1) == 0);
        lemma_same_number_same_date(1970, 1, 1, y, m, d);
    }
}

proof fn lemma_same_number_same_date(y1: int, m1: int, d1: int, y2: int, m2: int, d2: int)
    requires
        is_date(y1, m1, d1),
        is_date(y2, m2, d2),
        day_number(y1, m1, d1) == day_number(y2, m2, d2),
    ensures
        y1 == y2 && m1 == m2 && d1 == d2,
{
    if y1 < y2 || (y1 == y2 && m1 < m2) || (y1 == y2 && m1 == m2 && d1 < d2) {
        day_number_is_increasing(y1, m1, d1, y2, m2, d2);
    } else if !(y1 == y2 && m1 == m2 && d1 == d2) {
        day_number_is_increasing(y2, m2, d2, y1, m1, d1);
    }
}

} // verus!
