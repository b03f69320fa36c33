//! Instants as a count of a fixed unit since the Unix epoch.
use vstd::prelude::*;

use super::timestamp::{TimeVal, NANOS_PER_SEC};

verus! {

/// Milliseconds in a second.
pub const MILLIS_PER_SEC: u32 = 1_000;

/// Microseconds in a second.
pub const MICROS_PER_SEC: u32 = 1_000_000;

/// An instant as `time` units of `1 / DUR` second since the epoch; `IS_UTC`
/// says whether it is printed as UTC or local time.
#[derive(Debug, Clone, Copy)]
pub struct DateTime<const DUR: u32, const IS_UTC: bool> {
    time: i64,
}

/// `a / b` rounded toward zero, as Rust's integer division does.
pub open spec fn trunc_div(a: int, b: int) -> int {
    if a >= 0 {
        a / b
    } else {
        -((-a) / b)
    }
}

impl DateTime<MILLIS_PER_SEC, false> {
    /// `time` milliseconds after the epoch.
    pub fn new_ms(time: i64) -> (r: DateTime<MILLIS_PER_SEC, false>)
        ensures
            r.count() == time,
    {
        DateTime::<MILLIS_PER_SEC, false>::new(time)
    }
}

impl DateTime<MICROS_PER_SEC, false> {
    /// `time` microseconds after the epoch.
    pub fn new_us(time: i64) -> (r: DateTime<MICROS_PER_SEC, false>)
        ensures
            r.count() == time,
    {
        DateTime::<MICROS_PER_SEC, false>::new(time)
    }
}

impl<const DUR: u32, const IS_UTC: bool> DateTime<DUR, IS_UTC> {
    pub closed spec fn spec_count(&self) -> i64 {
        self.time
    }

    /// `time` units after the epoch.
    pub fn new(time: i64) -> (r: DateTime<DUR, IS_UTC>)
        requires
            DUR != 0,
        ensures
            r.count() == time,
    {
        DateTime { time }
    }

    /// Units after the epoch.
    #[verifier::when_used_as_spec(spec_count)]
    pub fn count(&self) -> (r: i64)
        ensures
            r == self.spec_count(),
    {
        self.time
    }

    /// The instant `tv` in units of `1 / DUR` second, rounded down.
    pub fn from_timeval(tv: &TimeVal) -> (r: DateTime<DUR, IS_UTC>)
        requires
            0 < DUR <= NANOS_PER_SEC,
            tv.as_secs() * DUR + tv.subsec_nanos() / (NANOS_PER_SEC / DUR) <= i64::MAX,
        ensures
            r.count() == tv.as_secs() * DUR + tv.subsec_nanos() / (NANOS_PER_SEC / DUR),
    {
        let secs = tv.as_secs();
        let unit = NANOS_PER_SEC / DUR;
        assert(unit >= 1) by (nonlinear_arith)
            requires
                0 < DUR <= NANOS_PER_SEC,
                unit == NANOS_PER_SEC / DUR,
        ;
        let sub = tv.subsec_nanos() / unit;
        proof {
            assert(secs * DUR <= secs * DUR + sub);
        }
        let time = (secs * DUR as u64 + sub as u64) as i64;
        DateTime { time }
    }

    /// Whole seconds after the epoch, rounded toward zero; an instant before
    /// the epoch wraps.
    pub fn as_secs(&self) -> (r: u64)
        requires
            DUR != 0,
        ensures
            r == trunc_div(self.count() as int, DUR as int) as u64,
    {
        let sec = self.time / DUR as i64;
        sec as u64
    }
}

impl<const DUR: u32, const IS_UTC: bool> PartialEq for DateTime<DUR, IS_UTC> {
    fn eq(&self, other: &DateTime<DUR, IS_UTC>) -> (r: bool) {
        self.time == other.time
    }
}

impl<const DUR: u32, const IS_UTC: bool> vstd::std_specs::cmp::PartialEqSpecImpl for DateTime<DUR, IS_UTC> {
    open spec fn obeys_eq_spec() -> bool {
        true
    }

    open spec fn eq_spec(&self, other: &DateTime<DUR, IS_UTC>) -> bool {
        self.count() == other.count()
    }
}

impl<const DUR: u32, const IS_UTC: bool> vstd::std_specs::ops::AddSpecImpl<u32> for DateTime<DUR, IS_UTC> {
    open spec fn obeys_add_spec() -> bool {
        false
    }

    open spec fn add_req(self, rhs: u32) -> bool {
        self.count() + rhs <= i64::MAX
    }

    open spec fn add_spec(self, rhs: u32) -> DateTime<DUR, IS_UTC> {
        arbitrary()
    }
}

impl<const DUR: u32, const IS_UTC: bool> std::ops::Add<u32> for DateTime<DUR, IS_UTC> {
    type Output = DateTime<DUR, IS_UTC>;

    /// `rhs` units later.
    fn add(self, rhs: u32) -> DateTime<DUR, IS_UTC> {
        DateTime { time: self.time + rhs as i64 }
    }
}

impl<const DUR: u32, const IS_UTC: bool> vstd::std_specs::ops::SubSpecImpl<u32> for DateTime<DUR, IS_UTC> {
    open spec fn obeys_sub_spec() -> bool {
        false
    }

    open spec fn sub_req(self, rhs: u32) -> bool {
        self.count() - rhs >= i64::MIN
    }

    open spec fn sub_spec(self, rhs: u32) -> DateTime<DUR, IS_UTC> {
        arbitrary()
    }
}

impl<const DUR: u32, const IS_UTC: bool> std::ops::Sub<u32> for DateTime<DUR, IS_UTC> {
    type Output = DateTime<DUR, IS_UTC>;

    /// `rhs` units earlier.
    fn sub(self, rhs: u32) -> DateTime<DUR, IS_UTC> {
        DateTime { time: self.time - rhs as i64 }
    }
}

impl<const DUR: u32, const IS_UTC: bool> vstd::std_specs::ops::AddSpecImpl<DateTime<DUR, IS_UTC>> for DateTime<DUR, IS_UTC> {
    open spec fn obeys_add_spec() -> bool {
        false
    }

    open spec fn add_req(self, rhs: DateTime<DUR, IS_UTC>) -> bool {
        i64::MIN <= self.count() + rhs.count() <= i64::MAX
    }

    open spec fn add_spec(self, rhs: DateTime<DUR, IS_UTC>) -> DateTime<DUR, IS_UTC> {
        arbitrary()
    }
}

impl<const DUR: u32, const IS_UTC: bool> std::ops::Add<DateTime<DUR, IS_UTC>> for DateTime<DUR, IS_UTC> {
    type Output = DateTime<DUR, IS_UTC>;

    /// The sum of the two counts.
    fn add(self, rhs: DateTime<DUR, IS_UTC>) -> DateTime<DUR, IS_UTC> {
        DateTime { time: self.time + rhs.time }
    }
}

impl<const DUR: u32, const IS_UTC: bool> vstd::std_specs::ops::SubSpecImpl<DateTime<DUR, IS_UTC>> for DateTime<DUR, IS_UTC> {
    open spec fn obeys_sub_spec() -> bool {
        false
    }

    open spec fn sub_req(self, rhs: DateTime<DUR, IS_UTC>) -> bool {
        i64::MIN <= self.count() - rhs.count() <= i64::MAX
    }

    open spec fn sub_spec(self, rhs: DateTime<DUR, IS_UTC>) -> DateTime<DUR, IS_UTC> {
        arbitrary()
    }
}

impl<const DUR: u32, const IS_UTC: bool> std::ops::Sub<DateTime<DUR, IS_UTC>> for DateTime<DUR, IS_UTC> {
    type Output = DateTime<DUR, IS_UTC>;

    /// The difference of the two counts.
    fn sub(self, rhs: DateTime<DUR, IS_UTC>) -> DateTime<DUR, IS_UTC> {
        DateTime { time: self.time - rhs.time }
    }
}

} // verus!
