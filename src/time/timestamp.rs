//! Instants as seconds and nanoseconds since the Unix epoch, and a clock that
//! can run ahead of the wall clock for simulation.
use vstd::prelude::*;

use super::carry::{two64, u64_addc, u64_subc};
use super::julian::{civil_of, Julian, JULIAN_EPOCH, SECS_PER_DAY};

verus! {

/// Nanoseconds in a second.
pub const NANOS_PER_SEC: u32 = 1_000_000_000;

/// A unit of time, as its count in a second.
#[derive(Debug, Clone, Copy, PartialEq, Eq, Structural)]
pub enum Dur {
    Second,
    Nano,
    Micro,
    Milli,
}

impl Dur {
    /// How many of the unit make a second.
    pub fn per_second(self) -> (r: u32)
        ensures
            r == match self {
                Dur::Second => 1u32,
                Dur::Nano => 1_000_000_000u32,
                Dur::Micro => 1_000_000u32,
                Dur::Milli => 1_000u32,
            },
    {
        match self {
            Dur::Second => 1,
            Dur::Nano => 1_000_000_000,
            Dur::Micro => 1_000_000,
            Dur::Milli => 1_000,
        }
    }
}

/// An instant: whole seconds and the nanoseconds past them.
#[derive(Debug, Clone, Copy, Default, PartialEq, Eq, PartialOrd, Ord)]
pub struct TimeVal {
    sec: u64,
    nano: u32,
}

/// Relies on `std::time::Duration::new`, which does not panic when the
/// nanoseconds are under a second.
#[verifier::external_body]
fn duration_new(sec: u64, nano: u32) -> std::time::Duration
    requires
        nano < NANOS_PER_SEC,
{
    std::time::Duration::new(sec, nano)
}

impl TimeVal {
    #[verifier::type_invariant]
    closed spec fn inv(self) -> bool {
        self.nano < NANOS_PER_SEC
    }

    pub closed spec fn spec_as_secs(&self) -> u64 {
        self.sec
    }

    pub closed spec fn spec_subsec_nanos(&self) -> u32 {
        self.nano
    }

    /// The instant in nanoseconds.
    pub open spec fn total_nanos(&self) -> int {
        self.as_secs() * NANOS_PER_SEC + self.subsec_nanos()
    }

    /// `sec` seconds and `nano` nanoseconds; whole seconds in `nano` carry.
    pub fn new(sec: u64, nano: u32) -> (r: TimeVal)
        requires
            sec + nano / NANOS_PER_SEC <= u64::MAX,
        ensures
            r.as_secs() == sec + nano / NANOS_PER_SEC,
            r.subsec_nanos() == nano % NANOS_PER_SEC,
    {
        TimeVal { sec: sec + (nano / NANOS_PER_SEC) as u64, nano: nano % NANOS_PER_SEC }
    }

    /// The start of hour `hr` after the epoch.
    pub fn from_hours(hr: u32) -> (r: TimeVal)
        ensures
            r.as_secs() == hr * 3600,
            r.subsec_nanos() == 0,
    {
        TimeVal { sec: hr as u64 * 3600, nano: 0 }
    }

    /// Whole seconds.
    #[verifier::when_used_as_spec(spec_as_secs)]
    pub fn as_secs(&self) -> (r: u64)
        ensures
            r == self.spec_as_secs(),
    {
        self.sec
    }

    /// Nanoseconds past the whole seconds, always under a second.
    #[verifier::when_used_as_spec(spec_subsec_nanos)]
    pub fn subsec_nanos(&self) -> (r: u32)
        ensures
            r == self.spec_subsec_nanos(),
            r < NANOS_PER_SEC,
    {
        proof {
            use_type_invariant(self);
        }
        self.nano
    }

    /// Whole hours, wrapped to 32 bits.
    pub fn as_hours(&self) -> (r: u32)
        ensures
            r == (self.as_secs() / 3600) as u32,
    {
        (self.sec / 3600) as u32
    }

    /// Microseconds past the whole hours.
    pub fn subhour_micros(&self) -> (r: u32)
        ensures
            r == (self.as_secs() % 3600) * 1_000_000 + self.subsec_nanos() / 1000,
    {
        proof {
            use_type_invariant(self);
        }
        let secs = (self.sec % 3600) as u32;
        secs * 1_000_000 + self.nano / 1000
    }

    /// The same span as a `std::time::Duration`.
    pub fn to_duration(&self) -> std::time::Duration {
        proof {
            use_type_invariant(self);
        }
        duration_new(self.sec, self.nano)
    }

    /// The civil date `(year, month, day)` of the instant.
    pub fn date(&self) -> (r: (i32, i32, i32))
        requires
            JULIAN_EPOCH + self.as_secs() / SECS_PER_DAY <= i32::MAX,
        ensures
            (r.0 as int, r.1 as int, r.2 as int) == civil_of(
                JULIAN_EPOCH + self.as_secs() / SECS_PER_DAY,
            ),
    {
        Julian::from_time_t(self.sec).date()
    }

    /// Whole days, wrapped to 32 bits.
    pub fn days(&self) -> (r: u32)
        ensures
            r == (self.as_secs() / SECS_PER_DAY) as u32,
    {
        (self.sec / SECS_PER_DAY) as u32
    }

    /// Hours, minutes and seconds past the start of the day.
    pub fn hms(&self) -> (r: (u32, u32, u32))
        ensures
            r.0 == (self.as_secs() % SECS_PER_DAY) / 3600,
            r.1 == (self.as_secs() % 3600) / 60,
            r.2 == self.as_secs() % 60,
    {
        let hms = (self.sec % SECS_PER_DAY) as u32;
        let hh = hms / 3600;
        let mmss = hms % 3600;
        let mm = mmss / 60;
        let ss = mmss % 60;
        proof {
            let s = self.sec as int;
            assert((s % 86400) % 3600 == s % 3600) by (nonlinear_arith)
                requires
                    s >= 0,
            ;
            assert((s % 3600) % 60 == s % 60) by (nonlinear_arith)
                requires
                    s >= 0,
            ;
        }
        (hh, mm, ss)
    }

    /// The instant `rhs` later, with the seconds wrapped to 64 bits.
    pub fn plus(&self, rhs: &TimeVal) -> (r: TimeVal)
        ensures
            r.total_nanos() == (self.total_nanos() + rhs.total_nanos()) % (two64()
                * NANOS_PER_SEC),
    {
        proof {
            use_type_invariant(self);
            use_type_invariant(rhs);
        }
        let n = self.nano + rhs.nano;
        let (carry, nano) = if n < NANOS_PER_SEC {
            (0u64, n)
        } else {
            (1u64, n - NANOS_PER_SEC)
        };
        let (sec, _) = u64_addc(self.sec, rhs.sec, carry);
        proof {
            lemma_wrap_nanos(self.sec + rhs.sec + carry, nano as int);
        }
        TimeVal { sec, nano }
    }

    /// The instant `nanos` nanoseconds later, with the seconds wrapped to 64
    /// bits.
    pub fn plus_nanos(&self, nanos: u64) -> (r: TimeVal)
        ensures
            r.total_nanos() == (self.total_nanos() + nanos) % (two64() * NANOS_PER_SEC),
    {
        let d = TimeVal {
            sec: nanos / NANOS_PER_SEC as u64,
            nano: (nanos % NANOS_PER_SEC as u64) as u32,
        };
        self.plus(&d)
    }

    /// The instant `rhs` earlier, with the seconds wrapped to 64 bits.
    pub fn minus(&self, rhs: &TimeVal) -> (r: TimeVal)
        ensures
            r.total_nanos() == (self.total_nanos() - rhs.total_nanos()) % (two64()
                * NANOS_PER_SEC),
    {
        proof {
            use_type_invariant(self);
            use_type_invariant(rhs);
        }
        let (borrow, nano) = if self.nano < rhs.nano {
            (1u64, NANOS_PER_SEC - rhs.nano + self.nano)
        } else {
            (0u64, self.nano - rhs.nano)
        };
        let (sec, _) = u64_subc(self.sec, rhs.sec, borrow);
        proof {
            lemma_wrap_nanos(self.sec - rhs.sec - borrow, nano as int);
        }
        TimeVal { sec, nano }
    }

    /// Whether the instant comes before `other`.
    pub fn is_before(&self, other: &TimeVal) -> (r: bool)
        ensures
            r == (self.total_nanos() < other.total_nanos()),
    {
        proof {
            use_type_invariant(self);
            use_type_invariant(other);
        }
        self.sec < other.sec || (self.sec == other.sec && self.nano < other.nano)
    }
}

/// Seconds `s`, taken modulo 2^64, with `nano` nanoseconds past them, are
/// `s * 10^9 + nano` taken modulo 2^64 seconds.
proof fn lemma_wrap_nanos(s: int, nano: int)
    requires
        0 <= nano < NANOS_PER_SEC,
    ensures
        (s % two64()) * NANOS_PER_SEC + nano == (s * NANOS_PER_SEC + nano) % (two64()
            * NANOS_PER_SEC),
{
    let m = two64();
    let g = 1_000_000_000int;
    let q = s / m;
    let r = s % m;
    assert(s == q * m + r && 0 <= r < m) by (nonlinear_arith)
        requires
            m > 0,
            q == s / m,
            r == s % m,
    ;
    assert(s * g + nano == q * (m * g) + (r * g + nano)) by (nonlinear_arith)
        requires
            s == q * m + r,
    ;
    assert(0 <= r * g + nano < m * g) by (nonlinear_arith)
        requires
            0 <= r < m,
            0 <= nano < g,
            g > 0,
    ;
    vstd::arithmetic::div_mod::lemma_fundamental_div_mod_converse(
        s * g + nano,
        m * g,
        q,
        r * g + nano,
    );
}

impl vstd::std_specs::ops::AddSpecImpl<TimeVal> for TimeVal {
    open spec fn obeys_add_spec() -> bool {
        false
    }

    open spec fn add_req(self, rhs: TimeVal) -> bool {
        true
    }

    open spec fn add_spec(self, rhs: TimeVal) -> TimeVal {
        arbitrary()
    }
}

impl std::ops::Add<TimeVal> for TimeVal {
    type Output = TimeVal;

    /// See [`TimeVal::plus`].
    fn add(self, rhs: TimeVal) -> TimeVal {
        self.plus(&rhs)
    }
}

impl vstd::std_specs::ops::AddSpecImpl<u64> for TimeVal {
    open spec fn obeys_add_spec() -> bool {
        false
    }

    open spec fn add_req(self, rhs: u64) -> bool {
        true
    }

    open spec fn add_spec(self, rhs: u64) -> TimeVal {
        arbitrary()
    }
}

impl std::ops::Add<u64> for TimeVal {
    type Output = TimeVal;

    /// See [`TimeVal::plus_nanos`].
    fn add(self, rhs: u64) -> TimeVal {
        self.plus_nanos(rhs)
    }
}

impl vstd::std_specs::ops::SubSpecImpl<TimeVal> for TimeVal {
    open spec fn obeys_sub_spec() -> bool {
        false
    }

    open spec fn sub_req(self, rhs: TimeVal) -> bool {
        true
    }

    open spec fn sub_spec(self, rhs: TimeVal) -> TimeVal {
        arbitrary()
    }
}

impl std::ops::Sub<TimeVal> for TimeVal {
    type Output = TimeVal;

    /// See [`TimeVal::minus`].
    fn sub(self, rhs: TimeVal) -> TimeVal {
        self.minus(&rhs)
    }
}

impl std::ops::AddAssign<TimeVal> for TimeVal {
    /// See [`TimeVal::plus`].
    fn add_assign(&mut self, rhs: TimeVal) {
        *self = self.plus(&rhs);
    }
}

impl std::ops::AddAssign<u64> for TimeVal {
    /// See [`TimeVal::plus_nanos`].
    fn add_assign(&mut self, rhs: u64) {
        *self = self.plus_nanos(rhs);
    }
}

impl std::ops::SubAssign<TimeVal> for TimeVal {
    /// See [`TimeVal::minus`].
    fn sub_assign(&mut self, rhs: TimeVal) {
        *self = self.minus(&rhs);
    }
}

impl vstd::std_specs::convert::FromSpecImpl<Julian> for TimeVal {
    open spec fn obeys_from_spec() -> bool {
        false
    }

    open spec fn from_spec(v: Julian) -> TimeVal {
        arbitrary()
    }
}

impl From<Julian> for TimeVal {
    /// The start of the day; a day before 1970-01-01 gives the epoch.
    fn from(dt: Julian) -> TimeVal {
        let sec = if dt.jdn() >= JULIAN_EPOCH {
            dt.to_time_t()
        } else {
            0
        };
        TimeVal { sec, nano: 0 }
    }
}

/// A clock: the wall clock, or for simulation the wall clock plus an offset
/// that only grows.
#[derive(Debug, Default)]
pub struct SysClock {
    sim: bool,
    adj: TimeVal,
}

impl SysClock {
    pub closed spec fn spec_sim(&self) -> bool {
        self.sim
    }

    pub closed spec fn spec_adj(&self) -> TimeVal {
        self.adj
    }

    /// A clock with no offset; `sim` makes it a simulation clock.
    pub fn new(sim: bool) -> (r: SysClock)
        ensures
            r.spec_sim() == sim,
            r.spec_adj().total_nanos() == 0,
    {
        SysClock { sim, adj: TimeVal { sec: 0, nano: 0 } }
    }

    /// Whether the clock is a simulation clock.
    #[verifier::when_used_as_spec(spec_sim)]
    pub fn is_sim(&self) -> (r: bool)
        ensures
            r == self.spec_sim(),
    {
        self.sim
    }

    /// The clock's time when the wall clock reads `wall`.
    pub fn now_at(&self, wall: &TimeVal) -> (r: TimeVal)
        ensures
            !self.spec_sim() ==> r == *wall,
            self.spec_sim() ==> r.total_nanos() == (wall.total_nanos()
                + self.spec_adj().total_nanos()) % (two64() * NANOS_PER_SEC),
    {
        if !self.sim {
            *wall
        } else {
            wall.plus(&self.adj)
        }
    }

    /// Sets a simulation clock to read `tv` now, when the wall clock reads
    /// `wall`; the offset never moves back.
    pub fn set_timeval(&mut self, tv: &TimeVal, wall: &TimeVal)
        requires
            old(self).spec_sim(),
        ensures
            final(self).spec_sim(),
            ({
                let m = two64() * NANOS_PER_SEC;
                let now = (wall.total_nanos() + old(self).spec_adj().total_nanos()) % m;
                let wanted = (tv.total_nanos() - now) % m;
                if old(self).spec_adj().total_nanos() < wanted {
                    final(self).spec_adj().total_nanos() == wanted
                } else {
                    final(self).spec_adj() == old(self).spec_adj()
                }
            }),
    {
        let now = self.now_at(wall);
        let adj = tv.minus(&now);
        if self.adj.is_before(&adj) {
            self.adj = adj;
        }
    }
}

} // verus!
