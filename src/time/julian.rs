//! Julian day numbers and their civil dates.
use vstd::prelude::*;

verus! {

/// The Julian day number of 1970-01-01.
pub const JULIAN_EPOCH: i32 = 2440588;

/// Seconds in a day.
pub const SECS_PER_DAY: u64 = 86400;

/// A day, as its Julian day number.
#[derive(Debug, Clone, Copy, PartialEq, Eq, Structural)]
pub struct Julian(i32);

/// The Julian day number of a civil date (Fliegel and Van Flandern); the
/// divisions are of non-negative numbers for years from -4799 on.
pub open spec fn jdn_of(yr: int, mon: int, mday: int) -> int {
    let a: int = if mon <= 2 {
        -1
    } else {
        0
    };
    (1461 * (yr + 4800 + a)) / 4 + (367 * (mon - 2 - 12 * a)) / 12 - (3 * ((yr + 4900 + a)
        / 100)) / 4 + mday - 32075
}

/// The civil date `(year, month, day)` of a non-negative Julian day number,
/// the inverse of [`jdn_of`].
pub open spec fn civil_of(j: int) -> (int, int, int) {
    let f = j + 1401 + (((4 * j + 274277) / 146097) * 3) / 4 - 38;
    let e = 4 * f + 3;
    let g = (e % 1461) / 4;
    let h = 5 * g + 2;
    let d = (h % 153) / 5 + 1;
    let m = (h / 153 + 2) % 12 + 1;
    let y = e / 1461 - 4716 + (12 + 2 - m) / 12;
    (y, m, d)
}

/// Whether a date is one [`Julian::new_jdn`] accepts: a month from 1 to 12,
/// a day from 1 to 31, and a year from -4799 to 1000000.
pub open spec fn date_in_range(yr: int, mon: int, mday: int) -> bool {
    1 <= mon <= 12 && 1 <= mday <= 31 && -4799 <= yr <= 1000000
}

/// The `(year, month, day)` a decimal number `yyyymmdd` writes.
pub open spec fn yyyymmdd(date: int) -> (int, int, int) {
    (date / 10000, (date % 10000) / 100, date % 100)
}

impl Julian {
    /// The day number.
    pub closed spec fn spec_jdn(&self) -> i32 {
        self.0
    }

    /// The day of a date written as the decimal number `yyyymmdd`; `None`
    /// for a negative number or a date out of range.
    pub fn new(date: i32) -> (r: Option<Julian>)
        ensures
            date >= 0 && date_in_range(yyyymmdd(date as int).0, yyyymmdd(date as int).1, yyyymmdd(
                date as int,
            ).2) ==> r is Some && r->Some_0.jdn() == jdn_of(
                yyyymmdd(date as int).0,
                yyyymmdd(date as int).1,
                yyyymmdd(date as int).2,
            ),
            !(date >= 0 && date_in_range(yyyymmdd(date as int).0, yyyymmdd(date as int).1, yyyymmdd(
                date as int,
            ).2)) ==> r is None,
    {
        if date < 0 {
            return None;
        }
        let yr = date / 10000;
        let mon = (date % 10000) / 100;
        let mday = date % 100;
        Julian::new_jdn(yr, mon, mday)
    }

    /// The day of a civil date; `None` out of range.
    pub fn new_jdn(yr: i32, mon: i32, mday: i32) -> (r: Option<Julian>)
        ensures
            date_in_range(yr as int, mon as int, mday as int) ==> r is Some && r->Some_0.jdn()
                == jdn_of(yr as int, mon as int, mday as int),
            !date_in_range(yr as int, mon as int, mday as int) ==> r is None,
    {
        if mon < 1 || mon > 12 || mday < 1 || mday > 31 || yr < -4799 || yr > 1000000 {
            return None;
        }
        let a: i64 = if mon <= 2 {
            -1
        } else {
            0
        };
        let y = yr as i64;
        let r1 = (1461 * (y + 4800 + a)) / 4;
        let r2 = (367 * (mon as i64 - 2 - 12 * a)) / 12;
        let r3 = (3 * ((y + 4900 + a) / 100)) / 4;
        let res = r1 + r2 - r3 + mday as i64 - 32075;
        Some(Julian(res as i32))
    }

    /// The civil date `(year, month, day)` of the day.
    pub fn date(&self) -> (r: (i32, i32, i32))
        requires
            self.jdn() >= 0,
        ensures
            (r.0 as int, r.1 as int, r.2 as int) == civil_of(self.jdn() as int),
    {
        let j = self.0 as i64;
        let f = j + 1401 + (((4 * j + 274277) / 146097) * 3) / 4 - 38;
        let e = 4 * f + 3;
        let g = (e % 1461) / 4;
        let h = 5 * g + 2;
        let d = (h % 153) / 5 + 1;
        let m = (h / 153 + 2) % 12 + 1;
        let y = e / 1461 - 4716 + (12 + 2 - m) / 12;
        (y as i32, m as i32, d as i32)
    }

    /// The day number.
    #[verifier::when_used_as_spec(spec_jdn)]
    pub fn jdn(&self) -> (r: i32)
        ensures
            r == self.spec_jdn(),
    {
        self.0
    }

    /// Seconds from 1970-01-01 to the start of the day.
    pub fn to_time_t(&self) -> (r: u64)
        requires
            self.jdn() >= JULIAN_EPOCH,
        ensures
            r == (self.jdn() - JULIAN_EPOCH) * SECS_PER_DAY,
    {
        let days = (self.0 - JULIAN_EPOCH) as u64;
        days * SECS_PER_DAY
    }

    /// The day that holds the instant `secs` seconds after 1970-01-01.
    pub fn from_time_t(secs: u64) -> (r: Julian)
        requires
            JULIAN_EPOCH + secs / SECS_PER_DAY <= i32::MAX,
        ensures
            r.jdn() == JULIAN_EPOCH + secs / SECS_PER_DAY,
    {
        Julian(JULIAN_EPOCH + (secs / SECS_PER_DAY) as i32)
    }
}

impl Default for Julian {
    /// 1970-01-01.
    fn default() -> (r: Julian)
        ensures
            r.jdn() == JULIAN_EPOCH,
    {
        Julian(JULIAN_EPOCH)
    }
}

impl vstd::std_specs::convert::FromSpecImpl<i32> for Julian {
    open spec fn obeys_from_spec() -> bool {
        true
    }

    closed spec fn from_spec(v: i32) -> Julian {
        Julian(v)
    }
}

impl From<i32> for Julian {
    /// The day with day number `v`.
    fn from(v: i32) -> Julian {
        Julian(v)
    }
}

impl vstd::std_specs::convert::FromSpecImpl<i16> for Julian {
    open spec fn obeys_from_spec() -> bool {
        true
    }

    closed spec fn from_spec(v: i16) -> Julian {
        Julian(v as i32)
    }
}

impl From<i16> for Julian {
    fn from(v: i16) -> Julian {
        Julian(v as i32)
    }
}

impl vstd::std_specs::convert::FromSpecImpl<u16> for Julian {
    open spec fn obeys_from_spec() -> bool {
        true
    }

    closed spec fn from_spec(v: u16) -> Julian {
        Julian(v as i32)
    }
}

impl From<u16> for Julian {
    fn from(v: u16) -> Julian {
        Julian(v as i32)
    }
}

impl vstd::std_specs::convert::FromSpecImpl<u32> for Julian {
    open spec fn obeys_from_spec() -> bool {
        true
    }

    /// Day numbers above `i32::MAX` wrap.
    closed spec fn from_spec(v: u32) -> Julian {
        Julian(v as i32)
    }
}

impl From<u32> for Julian {
    fn from(v: u32) -> Julian {
        Julian(v as i32)
    }
}

impl vstd::std_specs::convert::FromSpecImpl<(i32, i32, i32)> for Julian {
    open spec fn obeys_from_spec() -> bool {
        false
    }

    closed spec fn from_spec(v: (i32, i32, i32)) -> Julian {
        arbitrary()
    }
}

impl From<(i32, i32, i32)> for Julian {
    /// The day of `(year, month, day)`; a date out of range gives 1970-01-01.
    fn from(v: (i32, i32, i32)) -> Julian {
        match Julian::new_jdn(v.0, v.1, v.2) {
            Some(j) => j,
            None => Julian(JULIAN_EPOCH),
        }
    }
}

} // verus!
