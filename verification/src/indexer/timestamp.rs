//! A calendar timestamp in UTC, and the shift that brings an offset
//! timestamp onto the UTC timeline.
//!
//! The indexer keeps every timestamp in UTC: a reading that carries a
//! zone offset is shifted when parsed, so a date written as
//! `14:37:28+01:00` appears in both index forms as `13:37:28`. The
//! tests pin this choice with literal examples.

use vstd::prelude::*;

use crate::text::{push_char, push_dec_pad_u32, push_pad2, spec_dec_pad};

verus! {

/// A moment on the proleptic Gregorian calendar, already normalized to
/// UTC. `nanos` counts nanoseconds past the whole second; values of a
/// second and more encode a leap second, as the parser reports them.
#[derive(Debug, Clone, Copy, PartialEq, Eq, Structural)]
pub struct Timestamp {
    pub year: i32,
    pub month: u8,
    pub day: u8,
    pub hour: u8,
    pub minute: u8,
    pub second: u8,
    pub nanos: u32,
}

/// A leap year: divisible by four, except centuries off the
/// four-hundred-year cycle.
pub open spec fn spec_is_leap_year(y: int) -> bool {
    y % 4 == 0 && (y % 100 != 0 || y % 400 == 0)
}

/// How many days the given month of the given year has.
pub open spec fn spec_days_in_month(y: int, m: int) -> int {
    if m == 2 {
        if spec_is_leap_year(y) { 29 } else { 28 }
    } else if m == 4 || m == 6 || m == 9 || m == 11 {
        30
    } else {
        31
    }
}

/// The largest year magnitude the timestamp parser can hand over, with
/// one day of slack for the shift to UTC.
pub open spec fn spec_year_in_range(y: int) -> bool {
    -262146 <= y <= 262146
}

/// A well-formed calendar date.
pub open spec fn spec_valid_date(y: int, m: int, d: int) -> bool {
    spec_year_in_range(y) && 1 <= m <= 12 && 1 <= d <= spec_days_in_month(y, m)
}

/// The calendar day after the given one.
pub open spec fn spec_next_date(y: int, m: int, d: int) -> (int, int, int) {
    if d < spec_days_in_month(y, m) {
        (y, m, d + 1)
    } else if m < 12 {
        (y, m + 1, 1)
    } else {
        (y + 1, 1, 1)
    }
}

/// The calendar day before the given one.
pub open spec fn spec_prev_date(y: int, m: int, d: int) -> (int, int, int) {
    if d > 1 {
        (y, m, d - 1)
    } else if m > 1 {
        (y, m - 1, spec_days_in_month(y, m - 1))
    } else {
        (y - 1, 12, 31)
    }
}

impl Timestamp {
    /// The struct describes a real UTC moment: a valid calendar date and
    /// in-range time-of-day fields.
    pub open spec fn wf(self) -> bool {
        spec_valid_date(self.year as int, self.month as int, self.day as int)
            && self.hour <= 23 && self.minute <= 59 && self.second <= 59
            && self.nanos <= 1_999_999_999
    }

    /// Seconds since this day's midnight.
    pub open spec fn spec_tod(self) -> int {
        self.hour as int * 3600 + self.minute as int * 60 + self.second as int
    }
}

/// The year as written in a timestamp: zero-padded to four digits, with
/// a leading minus sign for years before year zero.
pub open spec fn spec_year_chars(y: int) -> Seq<char> {
    if y < 0 {
        seq!['-'] + spec_dec_pad((-y) as nat, 4)
    } else {
        spec_dec_pad(y as nat, 4)
    }
}

/// The fractional-second part of the written timestamp: absent for a
/// whole second, else a dot and the shortest of three, six or nine
/// digits that keeps every nonzero figure.
pub open spec fn spec_fraction_chars(nanos: u32) -> Seq<char> {
    if nanos == 0 {
        Seq::<char>::empty()
    } else if nanos % 1000000 == 0 {
        seq!['.'] + spec_dec_pad((nanos / 1000000) as nat, 3)
    } else if nanos % 1000 == 0 {
        seq!['.'] + spec_dec_pad((nanos / 1000) as nat, 6)
    } else {
        seq!['.'] + spec_dec_pad(nanos as nat, 9)
    }
}

/// The compact fourteen-digit form `YYYYMMDDHHMMSS` used by the
/// transaction index; fractional seconds are dropped.
pub open spec fn spec_compact_chars(ts: Timestamp) -> Seq<char> {
    spec_year_chars(ts.year as int)
        + spec_dec_pad(ts.month as nat, 2)
        + spec_dec_pad(ts.day as nat, 2)
        + spec_dec_pad(ts.hour as nat, 2)
        + spec_dec_pad(ts.minute as nat, 2)
        + spec_dec_pad(ts.second as nat, 2)
}

/// The RFC 3339 form used by the pages index. The value is UTC, so the
/// zone designator is always `Z`.
pub open spec fn spec_rfc3339_chars(ts: Timestamp) -> Seq<char> {
    spec_year_chars(ts.year as int) + seq!['-']
        + spec_dec_pad(ts.month as nat, 2) + seq!['-']
        + spec_dec_pad(ts.day as nat, 2) + seq!['T']
        + spec_dec_pad(ts.hour as nat, 2) + seq![':']
        + spec_dec_pad(ts.minute as nat, 2) + seq![':']
        + spec_dec_pad(ts.second as nat, 2)
        + spec_fraction_chars(ts.nanos)
        + seq!['Z']
}

impl Timestamp {
    /// Appends the year, sign and padding included.
    fn push_year(self, s: &mut String)
        requires
            spec_year_in_range(self.year as int),
        ensures
            final(s)@ == old(s)@ + spec_year_chars(self.year as int),
    {
        if self.year < 0 {
            push_char(s, '-');
            push_dec_pad_u32(s, (-self.year) as u32, 4);
        } else {
            push_dec_pad_u32(s, self.year as u32, 4);
        }
        assert(s@ =~= old(s)@ + spec_year_chars(self.year as int));
    }

    /// Appends the fractional-second part, if any.
    fn push_fraction(self, s: &mut String)
        ensures
            final(s)@ == old(s)@ + spec_fraction_chars(self.nanos),
    {
        if self.nanos != 0 {
            push_char(s, '.');
            if self.nanos % 1000000 == 0 {
                push_dec_pad_u32(s, self.nanos / 1000000, 3);
            } else if self.nanos % 1000 == 0 {
                push_dec_pad_u32(s, self.nanos / 1000, 6);
            } else {
                push_dec_pad_u32(s, self.nanos, 9);
            }
        }
        assert(s@ =~= old(s)@ + spec_fraction_chars(self.nanos));
    }

    /// Appends the compact fourteen-digit form.
    pub fn push_compact(self, s: &mut String)
        requires
            self.wf(),
        ensures
            final(s)@ == old(s)@ + spec_compact_chars(self),
    {
        self.push_year(s);
        push_pad2(s, self.month);
        push_pad2(s, self.day);
        push_pad2(s, self.hour);
        push_pad2(s, self.minute);
        push_pad2(s, self.second);
        assert(s@ =~= old(s)@ + spec_compact_chars(self));
    }

    /// Appends the RFC 3339 form.
    #[verifier::rlimit(60)]
    pub fn push_rfc3339(self, s: &mut String)
        requires
            self.wf(),
        ensures
            final(s)@ == old(s)@ + spec_rfc3339_chars(self),
    {
        self.push_year(s);
        push_char(s, '-');
        push_pad2(s, self.month);
        push_char(s, '-');
        push_pad2(s, self.day);
        push_char(s, 'T');
        push_pad2(s, self.hour);
        push_char(s, ':');
        push_pad2(s, self.minute);
        push_char(s, ':');
        push_pad2(s, self.second);
        self.push_fraction(s);
        push_char(s, 'Z');
        assert(s@ =~= old(s)@ + spec_rfc3339_chars(self));
    }
}

/// Where the local clock reading `(y, m, d, tod)` lands on the UTC
/// timeline once the zone offset `off` is taken away: the same day with
/// time-of-day `tod - off`, borrowing from or carrying into the
/// neighbouring day when that leaves the day's range. Offsets are
/// strictly below one day, so one borrow or carry always suffices.
pub open spec fn spec_to_utc(
    y: int, m: int, d: int, h: int, mi: int, s: int, nanos: u32, off: int,
) -> Timestamp {
    let t = h * 3600 + mi * 60 + s - off;
    let (t2, date) = if t < 0 {
        (t + 86400, spec_prev_date(y, m, d))
    } else if t >= 86400 {
        (t - 86400, spec_next_date(y, m, d))
    } else {
        (t, (y, m, d))
    };
    Timestamp {
        year: date.0 as i32,
        month: date.1 as u8,
        day: date.2 as u8,
        hour: (t2 / 3600) as u8,
        minute: (t2 % 3600 / 60) as u8,
        second: (t2 % 60) as u8,
        nanos,
    }
}

/// Whether `y` is a leap year.
///
/// The computation runs on `y` shifted up by a whole number of
/// four-hundred-year cycles, so that the remainders are taken of a
/// non-negative value.
pub fn is_leap_year(y: i32) -> (r: bool)
    requires
        spec_year_in_range(y as int),
    ensures
        r == spec_is_leap_year(y as int),
{
    let z: i32 = y + 320000;
    proof {
        assert(z as int % 4 == y as int % 4 && z as int % 100 == y as int % 100
            && z as int % 400 == y as int % 400) by (nonlinear_arith)
            requires z == y + 320000;
    }
    z % 4 == 0 && (z % 100 != 0 || z % 400 == 0)
}

/// How many days the given month has.
pub fn days_in_month(y: i32, m: u8) -> (r: u8)
    requires
        spec_year_in_range(y as int),
        1 <= m <= 12,
    ensures
        r == spec_days_in_month(y as int, m as int),
{
    if m == 2 {
        if is_leap_year(y) { 29 } else { 28 }
    } else if m == 4 || m == 6 || m == 9 || m == 11 {
        30
    } else {
        31
    }
}

/// The calendar day after the given one.
fn next_date(y: i32, m: u8, d: u8) -> (r: (i32, u8, u8))
    requires
        spec_valid_date(y as int, m as int, d as int),
    ensures
        (r.0 as int, r.1 as int, r.2 as int) == spec_next_date(y as int, m as int, d as int),
{
    if d < days_in_month(y, m) {
        (y, m, d + 1)
    } else if m < 12 {
        (y, m + 1, 1)
    } else {
        (y + 1, 1, 1)
    }
}

/// The calendar day before the given one.
fn prev_date(y: i32, m: u8, d: u8) -> (r: (i32, u8, u8))
    requires
        spec_valid_date(y as int, m as int, d as int),
    ensures
        (r.0 as int, r.1 as int, r.2 as int) == spec_prev_date(y as int, m as int, d as int),
{
    if d > 1 {
        (y, m, d - 1)
    } else if m > 1 {
        (y, m - 1, days_in_month(y, m - 1))
    } else {
        (y - 1, 12, 31)
    }
}

/// Shifts a parsed clock reading with zone offset `off` onto the UTC
/// timeline.
pub fn to_utc(y: i32, m: u8, d: u8, h: u8, mi: u8, s: u8, nanos: u32, off: i32) -> (r: Timestamp)
    requires
        spec_valid_date(y as int, m as int, d as int),
        -262145 <= y <= 262145,
        h <= 23,
        mi <= 59,
        s <= 59,
        nanos <= 1_999_999_999,
        -86399 <= off <= 86399,
    ensures
        r == spec_to_utc(y as int, m as int, d as int, h as int, mi as int, s as int, nanos, off as int),
        r.wf(),
{
    let mut t: i32 = h as i32 * 3600 + mi as i32 * 60 + s as i32 - off;
    let date: (i32, u8, u8) = if t < 0 {
        t = t + 86400;
        prev_date(y, m, d)
    } else if t >= 86400 {
        t = t - 86400;
        next_date(y, m, d)
    } else {
        (y, m, d)
    };
    assert(0 <= t < 86400);
    let hour: i32 = t / 3600;
    let minute: i32 = t % 3600 / 60;
    let second: i32 = t % 60;
    proof {
        assert(0 <= t / 3600 <= 23 && 0 <= t % 3600 / 60 <= 59 && 0 <= t % 60 <= 59)
            by (nonlinear_arith)
            requires 0 <= t < 86400;
    }
    Timestamp {
        year: date.0,
        month: date.1,
        day: date.2,
        hour: hour as u8,
        minute: minute as u8,
        second: second as u8,
        nanos,
    }
}

} // verus!
