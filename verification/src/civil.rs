use vstd::prelude::*;

verus! {

/// A leap year of the proleptic Gregorian calendar.
pub open spec fn is_leap(y: int) -> bool {
    (y % 4 == 0 && y % 100 != 0) || y % 400 == 0
}

/// Days in year `y`.
pub open spec fn year_len(y: int) -> int {
    if is_leap(y) {
        366
    } else {
        365
    }
}

/// Days in month `m` (1 to 12) of year `y`.
pub open spec fn month_len(y: int, m: int) -> int {
    if m == 2 {
        if is_leap(y) {
            29
        } else {
            28
        }
    } else if m == 4 || m == 6 || m == 9 || m == 11 {
        30
    } else {
        31
    }
}

/// Days from 1970-01-01 to January 1 of year `y` (negative before 1970).
pub open spec fn days_before_year(y: int) -> int
    decreases (if y >= 1970 {
        y - 1970
    } else {
        1970 - y
    }),
{
    if y == 1970 {
        0
    } else if y > 1970 {
        days_before_year(y - 1) + year_len(y - 1)
    } else {
        days_before_year(y + 1) - year_len(y)
    }
}

/// Days from January 1 to the first day of month `m` in year `y`.
pub open spec fn days_before_month(y: int, m: int) -> int
    decreases m,
{
    if m <= 1 {
        0
    } else {
        days_before_month(y, m - 1) + month_len(y, m - 1)
    }
}

/// `(y, m, d)` is a date of the calendar.
pub open spec fn valid_date(y: int, m: int, d: int) -> bool {
    1 <= m <= 12 && 1 <= d <= month_len(y, m)
}

/// Days from 1970-01-01 to the date `y`-`m`-`d`.
pub open spec fn days_from_civil(y: int, m: int, d: int) -> int {
    days_before_year(y) + days_before_month(y, m) + d - 1
}

/// Consecutive years follow each other: year `y + 1` starts `year_len(y)`
/// days after year `y`.
pub proof fn lemma_next_year(y: int)
    ensures
        days_before_year(y + 1) == days_before_year(y) + year_len(y),
{
    if y + 1 > 1970 {
    } else {
    }
}

/// The months of a year add up to the year.
pub proof fn lemma_months_fill_year(y: int)
    ensures
        days_before_month(y, 13) == year_len(y),
        days_before_month(y, 12) + month_len(y, 12) == year_len(y),
{
    reveal_with_fuel(days_before_month, 13);
}

/// Years are at least 365 and at most 366 days long, so the start of a
/// year lies within those multiples of its distance from 1970.
pub proof fn lemma_year_start_bounds(y: int)
    ensures
        y >= 1970 ==> 365 * (y - 1970) <= days_before_year(y) <= 366 * (y - 1970),
        y <= 1970 ==> 366 * (y - 1970) <= days_before_year(y) <= 365 * (y - 1970),
    decreases (if y >= 1970 {
        y - 1970
    } else {
        1970 - y
    }),
{
    if y > 1970 {
        lemma_year_start_bounds(y - 1);
    } else if y < 1970 {
        lemma_year_start_bounds(y + 1);
    }
}

/// Days before a month grow with the month, staying within the year.
pub proof fn lemma_month_start_bounds(y: int, m: int)
    requires
        1 <= m <= 13,
    ensures
        0 <= days_before_month(y, m) <= 31 * (m - 1),
    decreases m,
{
    if m > 1 {
        lemma_month_start_bounds(y, m - 1);
    }
}

/// The calendar counts days one by one: 1970-01-01 is day 0, the day after a
/// date is the next day number within a month, the first of a month follows
/// the last day of the month before, and January 1 follows December 31.
pub proof fn lemma_days_count_on(y: int, m: int, d: int)
    ensures
        days_from_civil(1970, 1, 1) == 0,
        1 <= d < month_len(y, m) ==> days_from_civil(y, m, d + 1) == days_from_civil(y, m, d) + 1,
        1 <= m < 12 ==> days_from_civil(y, m + 1, 1) == days_from_civil(y, m, month_len(y, m))
            + 1,
        days_from_civil(y + 1, 1, 1) == days_from_civil(y, 12, 31) + 1,
{
    lemma_next_year(y);
    lemma_months_fill_year(y);
}

/// Days from 1970-01-01 to `y`-`m`-`d`, computed by walking the years and
/// months.
pub fn days_from_civil_exec(y: i64, m: i64, d: i64) -> (r: i64)
    requires
        0 <= y <= 9999,
        valid_date(y as int, m as int, d as int),
    ensures
        r == days_from_civil(y as int, m as int, d as int),
{
    proof {
        lemma_year_start_bounds(y as int);
        lemma_month_start_bounds(y as int, m as int);
    }
    let mut year: i64 = 1970;
    let mut start: i64 = 0;
    while year < y
        invariant
            1970 <= year <= y || (year == 1970 && y < 1970),
            y <= 9999,
            start == days_before_year(year as int),
        decreases y - year,
    {
        proof {
            lemma_next_year(year as int);
            lemma_year_start_bounds(year as int + 1);
        }
        let len: i64 = if (year % 4 == 0 && year % 100 != 0) || year % 400 == 0 {
            366
        } else {
            365
        };
        start = start + len;
        year = year + 1;
    }
    while year > y
        invariant
            y <= year,
            year <= 1970 || year == y,
            0 <= y,
            y <= 9999,
            start == days_before_year(year as int),
        decreases year - y,
    {
        proof {
            lemma_next_year(year as int - 1);
            lemma_year_start_bounds(year as int - 1);
        }
        let prev: i64 = year - 1;
        let len: i64 = if (prev % 4 == 0 && prev % 100 != 0) || prev % 400 == 0 {
            366
        } else {
            365
        };
        start = start - len;
        year = prev;
    }
    let mut month: i64 = 1;
    let mut before: i64 = 0;
    while month < m
        invariant
            1 <= month <= m,
            m <= 12,
            year == y,
            before == days_before_month(y as int, month as int),
            0 <= before <= 31 * (month - 1),
        decreases m - month,
    {
        let len: i64 = if month == 2 {
            if (y % 4 == 0 && y % 100 != 0) || y % 400 == 0 {
                29
            } else {
                28
            }
        } else if month == 4 || month == 6 || month == 9 || month == 11 {
            30
        } else {
            31
        };
        before = before + len;
        month = month + 1;
    }
    start + before + d - 1
}

} // verus!
