use vstd::prelude::*;

verus! {

/// Earliest year that a calendar date can have here.
pub const MIN_DATE_YEAR: i32 = -262143;

/// Latest year that a calendar date can have here.
pub const MAX_DATE_YEAR: i32 = 262142;

/// Leap years of the proleptic Gregorian calendar.
pub open spec fn is_leap_year(year: int) -> bool {
    year % 4 == 0 && (year % 100 != 0 || year % 400 == 0)
}

/// Number of days in a month (1 to 12) of the given year.
pub open spec fn days_in_month(year: int, month: int) -> int {
    if month == 2 {
        if is_leap_year(year) {
            29
        } else {
            28
        }
    } else if month == 4 || month == 6 || month == 9 || month == 11 {
        30
    } else {
        31
    }
}

/// `year`-`month`-`day` names a day of the proleptic Gregorian calendar within the
/// supported range of years.
pub open spec fn is_calendar_date(year: int, month: int, day: int) -> bool {
    &&& MIN_DATE_YEAR <= year <= MAX_DATE_YEAR
    &&& 1 <= month <= 12
    &&& 1 <= day <= days_in_month(year, month)
}

#[verifier::external_type_specification]
#[verifier::external_body]
pub struct ExNaiveDate(chrono::NaiveDate);

/// Relies on chrono::NaiveDate::from_ymd_opt: it gives a date exactly when the month
/// and day are valid, the day exists in that month of that year, and the year lies in
/// chrono's range (-262143 to 262142).
#[verifier::external_body]
fn naive_date_from_ymd(year: i32, month: u32, day: u32) -> (r: Option<chrono::NaiveDate>)
    ensures
        r is Some <==> is_calendar_date(year as int, month as int, day as int),
{
    chrono::NaiveDate::from_ymd_opt(year, month, day)
}

/// The calendar date picked as year, month and day, or an error where that day does
/// not exist.
pub fn iced_date_to_local_datetime(year: i32, month: u32, day: u32) -> (r: Result<
    chrono::NaiveDate,
    String,
>)
    ensures
        r is Ok <==> is_calendar_date(year as int, month as int, day as int),
        r matches Err(e) ==> e@ == "Invalid date"@,
{
    match naive_date_from_ymd(year, month, day) {
        Some(n) => Ok(n),
        None => Err("Invalid date".to_owned()),
    }
}

} // verus!
