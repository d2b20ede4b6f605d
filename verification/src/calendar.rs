//! The proleptic Gregorian calendar, as far as dates must be told from
//! triples of numbers that are none.

use vstd::prelude::*;

verus! {

/// The first year that the wire format of a timestamp can hold.
pub const FIRST_YEAR: i32 = 0;

/// The last year that the wire format of a timestamp can hold.
pub const LAST_YEAR: i32 = 9999;

/// Whether `year` is a leap year.
pub open spec fn is_leap_year(year: int) -> bool {
    year % 4 == 0 && (year % 100 != 0 || year % 400 == 0)
}

/// The number of days of a month; `month` counts from 1.
pub open spec fn days_in_month(year: int, month: int) -> int {
    if month == 2 {
        if is_leap_year(year) {
            29
        } else {
            28
        }
    } else if month == 4 || month == 6 || month == 9 || month == 11 {
        30
    } else {
        31
    }
}

/// Whether the triple names a day of the calendar.
pub open spec fn is_calendar_date(year: int, month: int, day: int) -> bool {
    1 <= month <= 12 && 1 <= day <= days_in_month(year, month)
}

/// Whether the triple names a day that a timestamp on the wire can hold: a
/// day of the calendar in a year of at most four digits.
pub open spec fn is_wire_date(year: int, month: int, day: int) -> bool {
    FIRST_YEAR <= year <= LAST_YEAR && is_calendar_date(year, month, day)
}

/// Decides whether `year` is a leap year.
pub fn leap_year(year: i32) -> (leap: bool)
    ensures
        leap == is_leap_year(year as int),
{
    year % 4 == 0 && (year % 100 != 0 || year % 400 == 0)
}

/// The number of days of a month; `month` counts from 1.
pub fn month_length(year: i32, month: u32) -> (days: u32)
    ensures
        days == days_in_month(year as int, month as int),
{
    if month == 2 {
        if leap_year(year) {
            29
        } else {
            28
        }
    } else if month == 4 || month == 6 || month == 9 || month == 11 {
        30
    } else {
        31
    }
}

/// Decides whether the triple names a day that a timestamp on the wire can
/// hold.
pub fn wire_date(year: i32, month: u32, day: u32) -> (valid: bool)
    ensures
        valid == is_wire_date(year as int, month as int, day as int),
{
    FIRST_YEAR <= year && year <= LAST_YEAR && 1 <= month && month <= 12 && 1 <= day && day
        <= month_length(year, month)
}

} // verus!
