//! Local wall-clock time as plain values, and the clock field.

use vstd::prelude::*;

verus! {

/// The largest year that chrono's dates can hold.
pub const MAX_YEAR: u32 = 262142;

/// A local date and time to the minute.
#[derive(Clone, Copy, Debug, PartialEq, Eq)]
pub struct LocalTime {
    pub year: u32,
    pub month: u32,
    pub day: u32,
    pub hour: u32,
    pub minute: u32,
}

pub open spec fn is_leap_year(y: int) -> bool {
    y % 4 == 0 && (y % 100 != 0 || y % 400 == 0)
}

pub open spec fn days_in_month(y: int, m: int) -> int {
    if m == 2 {
        if is_leap_year(y) {
            29
        } else {
            28
        }
    } else if m == 4 || m == 6 || m == 9 || m == 11 {
        30
    } else {
        31
    }
}

impl LocalTime {
    /// A real calendar date, in a year chrono can hold, and a time of day.
    pub open spec fn wf(&self) -> bool {
        &&& self.year <= MAX_YEAR
        &&& 1 <= self.month <= 12
        &&& 1 <= self.day <= days_in_month(self.year as int, self.month as int)
        &&& self.hour < 24
        &&& self.minute < 60
    }

    /// The time with these parts, where they make one.
    pub fn new(year: u32, month: u32, day: u32, hour: u32, minute: u32) -> (r: Option<LocalTime>)
        ensures
            r is Some <==> (LocalTime { year, month, day, hour, minute }).wf(),
            r matches Some(t) ==> t == (LocalTime { year, month, day, hour, minute }),
    {
        if year > MAX_YEAR || month < 1 || month > 12 || day < 1 || hour >= 24 || minute >= 60 {
            return None;
        }
        let leap = year % 4 == 0 && (year % 100 != 0 || year % 400 == 0);
        let last: u32 = if month == 2 {
            if leap {
                29
            } else {
                28
            }
        } else if month == 4 || month == 6 || month == 9 || month == 11 {
            30
        } else {
            31
        };
        if day > last {
            None
        } else {
            Some(LocalTime { year, month, day, hour, minute })
        }
    }
}

/// The clock field as chrono writes it with the pattern `📆 %a, %d %h ⸱ 🕓 %R`.
pub uninterp spec fn clock_text_of(year: u32, month: u32, day: u32, hour: u32, minute: u32) -> Seq<char>;

/// Relies on chrono's `NaiveDate::from_ymd_opt`, `NaiveDate::and_hms_opt` and
/// `NaiveDateTime::format`: a valid date and time give `Some` and are written
/// by the pattern.
#[verifier::external_body]
fn clock_text(t: &LocalTime) -> (r: String)
    requires
        t.wf(),
    ensures
        r@ == clock_text_of(t.year, t.month, t.day, t.hour, t.minute),
{
    let date = chrono::NaiveDate::from_ymd_opt(t.year as i32, t.month, t.day).unwrap();
    let moment = date.and_hms_opt(t.hour, t.minute, 0).unwrap();
    moment.format("📆 %a, %d %h ⸱ 🕓 %R").to_string()
}

/// The clock field: weekday, day and month, then hours and minutes.
pub fn date(t: &LocalTime) -> (r: String)
    requires
        t.wf(),
    ensures
        r@ == clock_text_of(t.year, t.month, t.day, t.hour, t.minute),
{
    clock_text(t)
}

} // verus!
