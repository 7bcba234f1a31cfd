//! Calendar dates as plain year/month/day triples with a verified day count.
//!
//! The pricing core only ever needs whole-day differences between two dates
//! (for year fractions), so a date is modelled by its civil components and a
//! day number in the proleptic Gregorian calendar, counted from 1970-01-01.
use vstd::prelude::*;

verus! {

/// A civil calendar date.
#[derive(Debug, Clone, Copy, PartialEq, Eq, Structural, Hash)]
pub struct Date {
    pub year: i32,
    pub month: u8,
    pub day: u8,
}

impl Date {
    /// Field ranges under which the day count is meaningful.
    pub open spec fn wf(self) -> bool {
        &&& 1 <= self.year <= 9999
        &&& 1 <= self.month <= 12
        &&& 1 <= self.day <= 31
    }

    /// The number of days from 1970-01-01 to this date, by the standard
    /// era/year-of-era/day-of-year decomposition of the Gregorian calendar.
    pub open spec fn spec_day_number(self) -> int {
        let y = if self.month <= 2 {
            self.year - 1
        } else {
            self.year as int
        };
        let era = y / 400;
        let yoe = y - era * 400;
        let mp = if self.month > 2 {
            self.month - 3
        } else {
            self.month + 9
        };
        let doy = (153 * mp + 2) / 5 + self.day - 1;
        let doe = yoe * 365 + yoe / 4 - yoe / 100 + doy;
        era * 146097 + doe - 719468
    }

    pub fn from_ymd(year: i32, month: u8, day: u8) -> (r: Date)
        requires
            1 <= year <= 9999,
            1 <= month <= 12,
            1 <= day <= 31,
        ensures
            r == (Date { year, month, day }),
            r.wf(),
    {
        Date { year, month, day }
    }

    /// The number of days from 1970-01-01 to this date.
    pub fn day_number(&self) -> (r: i64)
        requires
            self.wf(),
        ensures
            r == self.spec_day_number(),
            -800000 <= r <= 3000000,
    {
        let y: i64 = if self.month <= 2 {
            self.year as i64 - 1
        } else {
            self.year as i64
        };
        let era: i64 = y / 400;
        let yoe: i64 = y - era * 400;
        let mp: i64 = if self.month > 2 {
            self.month as i64 - 3
        } else {
            self.month as i64 + 9
        };
        let doy: i64 = (153 * mp + 2) / 5 + self.day as i64 - 1;
        let doe: i64 = yoe * 365 + yoe / 4 - yoe / 100 + doy;
        era * 146097 + doe - 719468
    }
}

} // verus!
