use vstd::prelude::*;

verus! {

/// Nanoseconds in one second; the sub-second remainder is always below it.
pub const NANOS_PER_SEC: u32 = 1_000_000_000;

/// A calendar date with a time of day, interpreted in the local timezone,
/// carrying a sub-second remainder in nanoseconds.
///
/// This is the comparable temporal value that every timestamp source (the
/// three embedded metadata fields and the filesystem modification time) is
/// reduced to before the earliest one is chosen.
#[derive(Clone, Copy, Debug, PartialEq, Eq, Structural)]
pub struct Timestamp {
    pub year: u16,
    pub month: u8,
    pub day: u8,
    pub hour: u8,
    pub minute: u8,
    pub second: u8,
    pub nanos: u32,
}

/// A point in time as the filesystem stores it: whole seconds since the Unix
/// epoch plus a nanosecond remainder.
#[derive(Clone, Copy, Debug, PartialEq, Eq, Structural)]
pub struct EpochTime {
    pub secs: i64,
    pub nanos: u32,
}

/// A year has 366 days exactly when the Gregorian leap rule says so.
pub open spec fn is_leap_year(y: int) -> bool {
    (y % 4 == 0 && y % 100 != 0) || y % 400 == 0
}

/// Number of days in the given month of the given year.
pub open spec fn days_in_month(y: int, m: int) -> int {
    if m == 2 {
        if is_leap_year(y) {
            29
        } else {
            28
        }
    } else if m == 4 || m == 6 || m == 9 || m == 11 {
        30
    } else {
        31
    }
}

impl Timestamp {
    /// A well-formed timestamp is a real calendar date within the four-digit
    /// year range of the textual format, with a valid time of day.
    pub open spec fn wf(self) -> bool {
        &&& self.year <= 9999
        &&& 1 <= self.month <= 12
        &&& 1 <= self.day <= days_in_month(self.year as int, self.month as int)
        &&& self.hour <= 23
        &&& self.minute <= 59
        &&& self.second <= 59
        &&& self.nanos < NANOS_PER_SEC
    }

    /// Chronological order: field by field from the year down to the
    /// nanosecond remainder.
    pub open spec fn spec_le(self, other: Timestamp) -> bool {
        if self.year != other.year {
            self.year < other.year
        } else if self.month != other.month {
            self.month < other.month
        } else if self.day != other.day {
            self.day < other.day
        } else if self.hour != other.hour {
            self.hour < other.hour
        } else if self.minute != other.minute {
            self.minute < other.minute
        } else if self.second != other.second {
            self.second < other.second
        } else {
            self.nanos <= other.nanos
        }
    }

    /// Decides `spec_le`: is `self` at or before `other`?
    pub fn le(&self, other: &Timestamp) -> (r: bool)
        ensures
            r == self.spec_le(*other),
    {
        if self.year != other.year {
            self.year < other.year
        } else if self.month != other.month {
            self.month < other.month
        } else if self.day != other.day {
            self.day < other.day
        } else if self.hour != other.hour {
            self.hour < other.hour
        } else if self.minute != other.minute {
            self.minute < other.minute
        } else if self.second != other.second {
            self.second < other.second
        } else {
            self.nanos <= other.nanos
        }
    }
}

/// The earlier of two timestamps; on a tie the first argument.
pub open spec fn spec_min(a: Timestamp, b: Timestamp) -> Timestamp {
    if a.spec_le(b) {
        a
    } else {
        b
    }
}

/// `spec_le` is a total order: reflexive, transitive, antisymmetric, and any
/// two timestamps are comparable.
pub proof fn lemma_le_total_order(a: Timestamp, b: Timestamp, c: Timestamp)
    ensures
        a.spec_le(a),
        a.spec_le(b) && b.spec_le(c) ==> a.spec_le(c),
        a.spec_le(b) && b.spec_le(a) ==> a == b,
        a.spec_le(b) || b.spec_le(a),
{
}

/// Decides `days_in_month` for a well-formed month.
pub fn days_in_month_of(year: u16, month: u8) -> (r: u8)
    requires
        1 <= month <= 12,
    ensures
        r as int == days_in_month(year as int, month as int),
{
    if month == 2 {
        if (year % 4 == 0 && year % 100 != 0) || year % 400 == 0 {
            29
        } else {
            28
        }
    } else if month == 4 || month == 6 || month == 9 || month == 11 {
        30
    } else {
        31
    }
}

impl Timestamp {
    /// Decides `wf`: is this a real calendar date and time?
    pub fn well_formed(&self) -> (r: bool)
        ensures
            r == self.wf(),
    {
        self.year <= 9999 && 1 <= self.month && self.month <= 12 && 1 <= self.day
            && self.day <= days_in_month_of(self.year, self.month) && self.hour <= 23
            && self.minute <= 59 && self.second <= 59 && self.nanos < NANOS_PER_SEC
    }
}

} // verus!
