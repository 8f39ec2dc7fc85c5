use vstd::prelude::*;

verus! {

/// Earliest year that chrono's `NaiveDate` represents.
pub const CALENDAR_MIN_YEAR: i32 = -262143;

/// Latest year that chrono's `NaiveDate` represents.
pub const CALENDAR_MAX_YEAR: i32 = 262142;

/// Gregorian rule: divisible by 4, and not by 100 unless also by 400.
pub open spec fn is_leap_year_spec(year: int) -> bool {
    year % 4 == 0 && (year % 100 != 0 || year % 400 == 0)
}

pub open spec fn days_in_year(year: int) -> nat {
    if is_leap_year_spec(year) { 366 } else { 365 }
}

/// Relies on chrono's `NaiveDate::from_yo_opt`: it gives a date exactly when the
/// year lies in chrono's supported range and the ordinal names a day of that
/// year (1 to 365, or 366 in a proleptic Gregorian leap year).
#[verifier::external_body]
fn ordinal_date_exists(year: i32, day_of_year: u32) -> (r: bool)
    ensures
        r <==> (CALENDAR_MIN_YEAR <= year <= CALENDAR_MAX_YEAR && 1 <= day_of_year <= days_in_year(
            year as int,
        )),
{
    chrono::NaiveDate::from_yo_opt(year, day_of_year).is_some()
}

/// Whether `year` is a leap year of the Gregorian calendar.
pub fn is_leap_year(year: i32) -> (r: bool)
    ensures
        r == is_leap_year_spec(year as int),
{
    year % 4 == 0 && (year % 100 != 0 || year % 400 == 0)
}

/// The calendar primitives of a local date-time that the time code carries.
#[derive(Clone, Copy, Debug, PartialEq, Eq, Structural)]
pub struct CalendarTime {
    pub year: i32,
    /// Day of the year, starting at 1 on January 1st.
    pub day_of_year: u32,
    pub hour: u32,
    pub minute: u32,
}

impl CalendarTime {
    /// A date-time of chrono's calendar, to the minute.
    pub open spec fn is_valid(&self) -> bool {
        &&& CALENDAR_MIN_YEAR <= self.year <= CALENDAR_MAX_YEAR
        &&& 1 <= self.day_of_year <= days_in_year(self.year as int)
        &&& self.hour < 24
        &&& self.minute < 60
    }

    /// Builds a calendar time, or `None` where the values name no minute of
    /// the calendar.
    pub fn new(year: i32, day_of_year: u32, hour: u32, minute: u32) -> (r: Option<CalendarTime>)
        ensures
            r == (if (CalendarTime { year, day_of_year, hour, minute }).is_valid() {
                Some(CalendarTime { year, day_of_year, hour, minute })
            } else {
                None
            }),
    {
        if hour < 24 && minute < 60 && ordinal_date_exists(year, day_of_year) {
            Some(CalendarTime { year, day_of_year, hour, minute })
        } else {
            None
        }
    }
}

} // verus!
