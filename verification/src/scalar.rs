//! Plain scalar carriers used throughout the data model.
//!
//! Monetary amounts are held as fixed-point numbers with two fractional
//! digits, so that arithmetic and the wire codec are exact and free of
//! rounding drift.  Calendar dates and timestamps are held as plain
//! component values; the wire codec renders and parses their textual forms.

use vstd::prelude::*;

verus! {

/// A fixed-point amount: the value is `hundredths / 100`.
///
/// Two fractional digits cover the platform's currency amounts, quantities
/// and rates exactly.
#[derive(Clone, Copy, Debug, PartialEq, Eq, Structural, Hash)]
pub struct Decimal {
    pub hundredths: i64,
}

impl Decimal {
    /// Builds an amount from a whole number of hundredths.
    pub fn from_hundredths(hundredths: i64) -> (r: Decimal)
        ensures
            r.hundredths == hundredths,
    {
        Decimal { hundredths }
    }

    /// Builds a whole-unit amount, e.g. `Decimal::whole(5)` is `5.00`.
    pub fn whole(units: i32) -> (r: Decimal)
        ensures
            r.hundredths == units * 100,
    {
        Decimal { hundredths: (units as i64) * 100 }
    }
}

/// A calendar date, rendered on the wire as `YYYY-MM-DD`.
#[derive(Clone, Copy, Debug, PartialEq, Eq, Structural, Hash)]
pub struct Date {
    pub year: u32,
    pub month: u32,
    pub day: u32,
}

impl Date {
    /// A date is renderable and re-parseable when each component fits its
    /// fixed-width digit field and the month and day are in calendar range.
    /// Day validity is structural (1..=31); month lengths are the remote
    /// platform's concern.
    pub open spec fn is_valid(self) -> bool {
        self.year <= 9999 && 1 <= self.month <= 12 && 1 <= self.day <= 31
    }

    pub fn new(year: u32, month: u32, day: u32) -> (r: Date)
        ensures
            r == (Date { year, month, day }),
    {
        Date { year, month, day }
    }

    /// Runtime check mirroring [`Date::is_valid`].
    pub fn valid(&self) -> (r: bool)
        ensures
            r == self.is_valid(),
    {
        self.year <= 9999 && 1 <= self.month && self.month <= 12 && 1 <= self.day && self.day
            <= 31
    }
}

/// A point in time with an explicit UTC offset, rendered on the wire as
/// `YYYY-MM-DDTHH:MM:SS` followed by `Z` (zero offset) or `+HH:MM`/`-HH:MM`.
#[derive(Clone, Copy, Debug, PartialEq, Eq, Structural, Hash)]
pub struct Timestamp {
    pub date: Date,
    pub hour: u32,
    pub minute: u32,
    pub second: u32,
    /// Offset from UTC in minutes, in the open range (-1440, 1440).
    pub offset_minutes: i32,
}

impl Timestamp {
    pub open spec fn is_valid(self) -> bool {
        &&& self.date.is_valid()
        &&& self.hour < 24
        &&& self.minute < 60
        &&& self.second < 60
        &&& -1440 < self.offset_minutes < 1440
    }

    pub fn new(date: Date, hour: u32, minute: u32, second: u32, offset_minutes: i32) -> (r:
        Timestamp)
        ensures
            r == (Timestamp { date, hour, minute, second, offset_minutes }),
    {
        Timestamp { date, hour, minute, second, offset_minutes }
    }

    /// Runtime check mirroring [`Timestamp::is_valid`].
    pub fn valid(&self) -> (r: bool)
        ensures
            r == self.is_valid(),
    {
        self.date.valid() && self.hour < 24 && self.minute < 60 && self.second < 60 && -1440
            < self.offset_minutes && self.offset_minutes < 1440
    }
}

} // verus!
