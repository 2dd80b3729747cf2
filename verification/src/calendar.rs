//! The proleptic Gregorian calendar, as far as timestamps need it: which
//! date a day of the Unix era falls on.

use vstd::prelude::*;

verus! {

/// Whether `year` has a 29th of February.
pub open spec fn is_leap_year(year: int) -> bool {
    year % 4 == 0 && (year % 100 != 0 || year % 400 == 0)
}

/// The number of days of a month.
pub open spec fn days_in_month(year: int, month: int) -> int {
    if month == 2 {
        if is_leap_year(year) {
            29
        } else {
            28
        }
    } else if month == 4 || month == 6 || month == 9 || month == 11 {
        30
    } else {
        31
    }
}

/// Whether year, month and day name a day of the calendar.
pub open spec fn is_date(year: int, month: int, day: int) -> bool {
    1 <= month <= 12 && 1 <= day <= days_in_month(year, month)
}

/// The number of days of `year` that lie before the first of `month`.
pub open spec fn days_before_month(year: int, month: int) -> int
    decreases month,
{
    if month <= 1 {
        0
    } else {
        days_before_month(year, month - 1) + days_in_month(year, month - 1)
    }
}

/// The number of leap years among the years 1 to `year - 1`, continued to
/// the years before.
#[verifier::opaque]
pub open spec fn leap_years_before(year: int) -> int {
    (year - 1) / 4 - (year - 1) / 100 + (year - 1) / 400
}

/// The number of days from the first of January 1970 to the first of
/// January of `year`; negative for a year before 1970.
pub open spec fn days_before_year(year: int) -> int {
    365 * (year - 1970) + leap_years_before(year) - leap_years_before(1970)
}

/// The number of days from the first of January 1970 to the given date.
pub open spec fn day_number(year: int, month: int, day: int) -> int {
    days_before_year(year) + days_before_month(year, month) + (day - 1)
}

proof fn lemma_days_before_month(year: int, month: int)
    requires
        1 <= month <= 13,
    ensures
        days_before_month(year, month) == (if month == 1 {
            0int
        } else if month == 2 {
            31
        } else if month == 3 {
            59
        } else if month == 4 {
            90
        } else if month == 5 {
            120
        } else if month == 6 {
            151
        } else if month == 7 {
            181
        } else if month == 8 {
            212
        } else if month == 9 {
            243
        } else if month == 10 {
            273
        } else if month == 11 {
            304
        } else if month == 12 {
            334
        } else {
            365
        }) + (if month > 2 && is_leap_year(year) {
            1int
        } else {
            0
        }),
    decreases month,
{
    if month > 1 {
        lemma_days_before_month(year, month - 1);
    }
}

proof fn lemma_multiples_of_4(n: int)
    ensures
        n / 4 - (n - 1) / 4 == (if n % 4 == 0 {
            1int
        } else {
            0
        }),
{
}

proof fn lemma_multiples_of_100(n: int)
    ensures
        n / 100 - (n - 1) / 100 == (if n % 100 == 0 {
            1int
        } else {
            0
        }),
{
}

proof fn lemma_multiples_of_400(n: int)
    ensures
        n / 400 - (n - 1) / 400 == (if n % 400 == 0 {
            1int
        } else {
            0
        }),
{
}

proof fn lemma_centuries(n: int)
    ensures
        n % 400 == 0 ==> n % 100 == 0,
        n % 100 == 0 ==> n % 4 == 0,
{
    vstd::arithmetic::div_mod::lemma_fundamental_div_mod(n, 400);
    vstd::arithmetic::div_mod::lemma_fundamental_div_mod(n, 100);
    if n % 400 == 0 {
        let q = n / 400;
        assert(n == (4 * q) * 100);
        vstd::arithmetic::div_mod::lemma_mod_multiples_basic(4 * q, 100);
    }
    if n % 100 == 0 {
        let q = n / 100;
        assert(n == (25 * q) * 4);
        vstd::arithmetic::div_mod::lemma_mod_multiples_basic(25 * q, 4);
    }
}

proof fn lemma_leap_years_step(year: int)
    ensures
        leap_years_before(year + 1) - leap_years_before(year) == (if is_leap_year(year) {
            1int
        } else {
            0
        }),
{
    reveal(leap_years_before);
    lemma_multiples_of_4(year);
    lemma_multiples_of_100(year);
    lemma_multiples_of_400(year);
    lemma_centuries(year);
}

/// A year has 365 days, a leap year 366.
pub proof fn lemma_year_length(year: int)
    ensures
        days_before_year(year + 1) - days_before_year(year) == (if is_leap_year(year) {
            366int
        } else {
            365
        }),
        days_before_month(year, 13) == days_before_year(year + 1) - days_before_year(year),
{
    lemma_days_before_month(year, 13);
    lemma_leap_years_step(year);
}

proof fn lemma_years_increase(earlier: int, later: int)
    requires
        earlier <= later,
    ensures
        days_before_year(later) - days_before_year(earlier) >= 365 * (later - earlier),
    decreases later - earlier,
{
    if earlier < later {
        lemma_years_increase(earlier, later - 1);
        lemma_year_length(later - 1);
    }
}

proof fn lemma_months_increase(year: int, earlier: int, later: int)
    requires
        1 <= earlier <= later <= 13,
    ensures
        days_before_month(year, later) - days_before_month(year, earlier) >= 28 * (later
            - earlier),
{
    lemma_days_before_month(year, earlier);
    lemma_days_before_month(year, later);
}

/// Dates are numbered in their order: of two dates the earlier one has the
/// smaller day number. So no two dates share a day number.
pub proof fn lemma_day_number_increases(y1: int, m1: int, d1: int, y2: int, m2: int, d2: int)
    requires
        is_date(y1, m1, d1),
        is_date(y2, m2, d2),
        y1 < y2 || (y1 == y2 && (m1 < m2 || (m1 == m2 && d1 < d2))),
    ensures
        day_number(y1, m1, d1) < day_number(y2, m2, d2),
{
    lemma_days_before_month(y1, m1);
    lemma_days_before_month(y2, m2);
    if y1 < y2 {
        lemma_years_increase(y1 + 1, y2);
        lemma_year_length(y1);
        lemma_months_increase(y1, m1 + 1, 13);
        lemma_days_before_month(y1, m1 + 1);
    } else if m1 < m2 {
        lemma_months_increase(y1, m1 + 1, m2);
        lemma_days_before_month(y1, m1 + 1);
    }
}

/// The date with the given day number, as year, month and day.
pub open spec fn date_of_day(days: int) -> (int, int, int) {
    choose|date: (int, int, int)|
        is_date(date.0, date.1, date.2) && day_number(date.0, date.1, date.2) == days
}

/// A date is the date of its day number: no other date has that number.
pub proof fn lemma_date_of_day(year: int, month: int, day: int)
    requires
        is_date(year, month, day),
    ensures
        date_of_day(day_number(year, month, day)) == (year, month, day),
{
    let days = day_number(year, month, day);
    let given = (year, month, day);
    assert(is_date(given.0, given.1, given.2) && day_number(given.0, given.1, given.2) == days);
    let found = date_of_day(days);
    if found.0 < year || (found.0 == year && (found.1 < month || (found.1 == month && found.2
        < day))) {
        lemma_day_number_increases(found.0, found.1, found.2, year, month, day);
    } else if found != given {
        lemma_day_number_increases(year, month, day, found.0, found.1, found.2);
    }
}

/// Splits a day of an era of 400 years, counted from the first of March,
/// into the year of the era and the day of that year.
fn year_of_era(doe: i128) -> (split: (i128, i128))
    requires
        0 <= doe <= 146096,
    ensures
        0 <= split.0 <= 399,
        doe == 365 * split.0 + split.0 / 4 - split.0 / 100 + split.1,
        0 <= split.1 <= 364 + (if leap_february_follows(split.0 as int) {
            1int
        } else {
            0
        }),
{
    // A century has 36524 days (the last of an era one more), four years
    // 1461 (the last of a century one less), a year 365 (the last of four
    // one more).
    let century: i128 = if doe / 36524 > 3 {
        3
    } else {
        doe / 36524
    };
    let day_of_century: i128 = doe - 36524 * century;
    let cycle: i128 = day_of_century / 1461;
    let day_of_cycle: i128 = day_of_century - 1461 * cycle;
    let year_of_cycle: i128 = if day_of_cycle / 365 > 3 {
        3
    } else {
        day_of_cycle / 365
    };
    proof {
        lemma_year_of_era(doe as int);
    }
    (100 * century + 4 * cycle + year_of_cycle, day_of_cycle - 365 * year_of_cycle)
}

/// Splits a day of a year, counted from the first of March, into the month,
/// counted from March, and the day of the month.
fn month_of_year(doy: i128) -> (split: (i128, i128))
    requires
        0 <= doy <= 365,
    ensures
        split.0 == (5 * doy + 2) / 153,
        split.1 == doy - march_month_start(split.0 as int) + 1,
        0 <= split.0 <= 11,
{
    let mp: i128 = (5 * doy + 2) / 153;
    (mp, doy - (153 * mp + 2) / 5 + 1)
}

/// The date on which a day of the Unix era falls.
///
/// The result is the one date whose day number is `days_since_epoch`.
pub fn days_to_date(days_since_epoch: i64) -> (date: (i64, i64, i64))
    ensures
        is_date(date.0 as int, date.1 as int, date.2 as int),
        day_number(date.0 as int, date.1 as int, date.2 as int) == days_since_epoch,
        (date.0 as int, date.1 as int, date.2 as int) == date_of_day(days_since_epoch as int),
{
    // Days are counted from the first of March of year 0, in eras of 400
    // years, each of 146097 days.
    let z: i128 = days_since_epoch as i128 + 719468;
    let era: i128 = (if z >= 0 {
        z
    } else {
        z - 146096
    }) / 146097;
    let doe: i128 = z - era * 146097;
    assert(0 <= doe <= 146096);
    let (yoe, doy) = year_of_era(doe);
    let (mp, d) = month_of_year(doy);
    let m: i128 = if mp < 10 {
        mp + 3
    } else {
        mp - 9
    };
    let y: i128 = yoe + era * 400 + (if m <= 2 {
        1
    } else {
        0
    });
    proof {
        lemma_date_of_march_day(era as int, yoe as int, doy as int);
        lemma_date_of_day(y as int, m as int, d as int);
    }
    (y as i64, m as i64, d as i64)
}

/// Splits a day of an era into the year of the era and the day of that
/// year, both counted from the first of March.
proof fn lemma_year_of_era(doe: int)
    requires
        0 <= doe <= 146096,
    ensures
        ({
            let century = if doe / 36524 > 3 {
                3
            } else {
                doe / 36524
            };
            let day_of_century = doe - 36524 * century;
            let cycle = day_of_century / 1461;
            let day_of_cycle = day_of_century - 1461 * cycle;
            let year_of_cycle = if day_of_cycle / 365 > 3 {
                3
            } else {
                day_of_cycle / 365
            };
            let yoe = 100 * century + 4 * cycle + year_of_cycle;
            let doy = day_of_cycle - 365 * year_of_cycle;
            &&& 0 <= century <= 3
            &&& 0 <= day_of_century <= 36524
            &&& 0 <= cycle <= 24
            &&& 0 <= day_of_cycle <= 1460
            &&& 0 <= year_of_cycle <= 3
            &&& 0 <= yoe <= 399
            &&& doe == 365 * yoe + yoe / 4 - yoe / 100 + doy
            &&& 0 <= doy <= 364 + (if leap_february_follows(yoe) {
                1int
            } else {
                0
            })
        }),
{
    reveal(leap_february_follows);
    let century = if doe / 36524 > 3 {
        3
    } else {
        doe / 36524
    };
    let day_of_century = doe - 36524 * century;
    assert(0 <= century <= 3);
    assert(0 <= day_of_century <= 36524);
    assert(century < 3 ==> day_of_century <= 36523);
    let cycle = day_of_century / 1461;
    let day_of_cycle = day_of_century - 1461 * cycle;
    assert(0 <= cycle <= 24);
    assert(0 <= day_of_cycle <= 1460);
    let year_of_cycle = if day_of_cycle / 365 > 3 {
        3
    } else {
        day_of_cycle / 365
    };
    assert(0 <= year_of_cycle <= 3);
    let yoe = 100 * century + 4 * cycle + year_of_cycle;
    let doy = day_of_cycle - 365 * year_of_cycle;
    assert(0 <= doy <= 365);
    assert(doy == 365 ==> year_of_cycle == 3);
    vstd::arithmetic::div_mod::lemma_fundamental_div_mod_converse(
        yoe,
        4,
        25 * century + cycle,
        year_of_cycle,
    );
    vstd::arithmetic::div_mod::lemma_fundamental_div_mod_converse(
        yoe,
        100,
        century,
        4 * cycle + year_of_cycle,
    );
    if year_of_cycle == 3 {
        vstd::arithmetic::div_mod::lemma_fundamental_div_mod_converse(
            yoe + 1,
            4,
            25 * century + cycle + 1,
            0,
        );
        if cycle == 24 {
            // The last four years of a century: a day 365 exists only at
            // the end of the era.
            if century == 3 {
                assert(yoe + 1 == 400);
            } else {
                assert(day_of_cycle <= 36523 - 1461 * 24);
                assert(doy <= 364);
            }
        } else {
            vstd::arithmetic::div_mod::lemma_fundamental_div_mod_converse(
                yoe + 1,
                100,
                century,
                4 * (cycle + 1),
            );
        }
    }
}

/// The start of a month counted from March, in days since the first of March.
spec fn march_month_start(mp: int) -> int {
    (153 * mp + 2) / 5
}

proof fn lemma_month_of_year(doy: int, leap: bool)
    requires
        0 <= doy <= 364 + (if leap {
            1int
        } else {
            0
        }),
    ensures
        ({
            let mp = (5 * doy + 2) / 153;
            let d = doy - march_month_start(mp) + 1;
            &&& 0 <= mp <= 11
            &&& 1 <= d
            &&& mp < 11 ==> d <= march_month_start(mp + 1) - march_month_start(mp)
            &&& mp == 11 ==> d <= 28 + (if leap {
                1int
            } else {
                0
            })
        }),
{
}

/// The day `doy` of the year that starts with March of year `yoe` of an
/// era is a date of the calendar, and its day number is what the count from
/// March says.
proof fn lemma_date_of_march_day(era: int, yoe: int, doy: int)
    requires
        0 <= yoe <= 399,
        0 <= doy <= 364 + (if leap_february_follows(yoe) {
            1int
        } else {
            0
        }),
    ensures
        ({
            let mp = (5 * doy + 2) / 153;
            let d = doy - march_month_start(mp) + 1;
            let m = if mp < 10 {
                mp + 3
            } else {
                mp - 9
            };
            let y = yoe + era * 400 + (if m <= 2 {
                1int
            } else {
                0
            });
            &&& is_date(y, m, d)
            &&& day_number(y, m, d) == era * 146097 + 365 * yoe + yoe / 4 - yoe / 100 + doy
                - 719468
        }),
{
    let mp = (5 * doy + 2) / 153;
    let d = doy - march_month_start(mp) + 1;
    let m = if mp < 10 {
        mp + 3
    } else {
        mp - 9
    };
    let march_year = era * 400 + yoe;
    let y = march_year + (if m <= 2 {
        1int
    } else {
        0
    });
    lemma_month_of_year(doy, leap_february_follows(yoe));
    lemma_march_year(era, yoe);
    lemma_days_before_month(y, m);
    lemma_year_length(march_year);
    assert(march_month_start(mp) == (if mp == 0 {
        0int
    } else if mp == 1 {
        31
    } else if mp == 2 {
        61
    } else if mp == 3 {
        92
    } else if mp == 4 {
        122
    } else if mp == 5 {
        153
    } else if mp == 6 {
        184
    } else if mp == 7 {
        214
    } else if mp == 8 {
        245
    } else if mp == 9 {
        275
    } else if mp == 10 {
        306
    } else {
        337
    }));
    assert(mp < 11 ==> march_month_start(mp + 1) - march_month_start(mp) == (if mp == 0 || mp == 2
        || mp == 4 || mp == 5 || mp == 7 || mp == 9 || mp == 10 {
        31int
    } else {
        30
    }));
    // The days from the epoch to the first of January after March of the
    // March year.
    assert(days_before_year(march_year + 1) == 365 * (march_year + 1 - 1970) + 97 * era + yoe / 4
        - yoe / 100 - 477);
    if m <= 2 {
        assert(y == march_year + 1);
        assert(is_leap_year(y) == leap_february_follows(yoe));
    } else {
        assert(y == march_year);
        assert(days_before_year(y) == days_before_year(y + 1) - (if is_leap_year(y) {
            366int
        } else {
            365
        }));
    }
}

/// Whether the year that ends with the February after March of year
/// `yoe` of an era has a leap day.
#[verifier::opaque]
spec fn leap_february_follows(yoe: int) -> bool {
    (yoe + 1) % 4 == 0 && ((yoe + 1) % 100 != 0 || (yoe + 1) % 400 == 0)
}

/// Adding a multiple of the divisor shifts the quotient and keeps the
/// remainder.
proof fn lemma_shift_by_multiples(x: int, k: int, d: int)
    requires
        d > 0,
    ensures
        (k * d + x) / d == k + x / d,
        (k * d + x) % d == x % d,
{
    vstd::arithmetic::div_mod::lemma_fundamental_div_mod(x, d);
    vstd::arithmetic::div_mod::lemma_mod_bound(x, d);
    assert(k * d + x == (k + x / d) * d + x % d) by (nonlinear_arith)
        requires
            x == d * (x / d) + x % d,
    ;
    vstd::arithmetic::div_mod::lemma_fundamental_div_mod_converse(
        k * d + x,
        d,
        k + x / d,
        x % d,
    );
}

proof fn lemma_march_year(era: int, yoe: int)
    requires
        0 <= yoe <= 399,
    ensures
        leap_years_before(era * 400 + yoe + 1) == 97 * era + yoe / 4 - yoe / 100,
        is_leap_year(era * 400 + yoe + 1) == leap_february_follows(yoe),
        leap_years_before(1970) == 477,
{
    reveal(leap_years_before);
    reveal(leap_february_follows);
    let year = era * 400 + yoe + 1;
    lemma_shift_by_multiples(yoe, 100 * era, 4);
    lemma_shift_by_multiples(yoe, 4 * era, 100);
    lemma_shift_by_multiples(yoe, era, 400);
    assert((100 * era) * 4 + yoe == year - 1);
    assert((4 * era) * 100 + yoe == year - 1);
    assert(era * 400 + yoe == year - 1);
    assert(yoe / 400 == 0);
    lemma_shift_by_multiples(yoe + 1, 100 * era, 4);
    lemma_shift_by_multiples(yoe + 1, 4 * era, 100);
    lemma_shift_by_multiples(yoe + 1, era, 400);
    assert((100 * era) * 4 + (yoe + 1) == year);
    assert((4 * era) * 100 + (yoe + 1) == year);
    assert(era * 400 + (yoe + 1) == year);
}

} // verus!
