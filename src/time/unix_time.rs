//! Whole seconds since 1970-01-01 00:00:00 UTC.
use vstd::prelude::*;

use vstd::utf8::*;

use super::julian::{civil_of, date_in_range, jdn_of, Julian, JULIAN_EPOCH, SECS_PER_DAY};
use super::timestamp::{TimeVal, NANOS_PER_SEC};
use crate::codec::str_from_utf8;

verus! {

/// The ASCII decimal digits of `n`, most significant first, padded with
/// zeros to at least `width` digits.
pub open spec fn decimal(n: nat, width: nat) -> Seq<u8>
    decreases n + width,
{
    if n < 10 && width <= 1 {
        seq![(48 + n) as u8]
    } else {
        decimal(n / 10, if width > 0 {
            (width - 1) as nat
        } else {
            0
        }) + seq![(48 + n % 10) as u8]
    }
}

/// The ASCII decimal text of `v`: a minus sign before the digits of a
/// negative number, which are padded to `width`.
pub open spec fn int_text(v: int, width: nat) -> Seq<u8> {
    if v < 0 {
        seq![45u8] + decimal((-v) as nat, width)
    } else {
        decimal(v as nat, width)
    }
}

/// The text of the instant `secs`: `yyyy-mm-ddUTC` at midnight, else
/// `yyyy-mm-dd hh:mm:ssZ`.
pub open spec fn unix_time_text(secs: int) -> Seq<u8> {
    let (y, m, d) = civil_of(JULIAN_EPOCH + secs / (SECS_PER_DAY as int));
    let date = int_text(y, 1) + seq![45u8] + int_text(m, 2) + seq![45u8] + int_text(d, 2);
    if secs % (SECS_PER_DAY as int) == 0 {
        date + seq![85u8, 84, 67]
    } else {
        date + seq![32u8] + decimal(((secs % 86400) / 3600) as nat, 2) + seq![58u8] + decimal(
            ((secs % 3600) / 60) as nat,
            2,
        ) + seq![58u8] + decimal((secs % 60) as nat, 2) + seq![90u8]
    }
}

/// Whether every byte is ASCII.
pub open spec fn all_ascii(b: Seq<u8>) -> bool {
    forall|i: int| 0 <= i < b.len() ==> b[i] < 128
}

proof fn lemma_decimal_ascii(n: nat, width: nat)
    ensures
        all_ascii(decimal(n, width)),
    decreases n + width,
{
    if !(n < 10 && width <= 1) {
        let w = if width > 0 {
            (width - 1) as nat
        } else {
            0
        };
        lemma_decimal_ascii(n / 10, w);
        let a = decimal(n / 10, w);
        let b = seq![(48 + n % 10) as u8];
        assert forall|i: int| 0 <= i < (a + b).len() implies (a + b)[i] < 128 by {
            if i < a.len() {
                assert((a + b)[i] == a[i]);
            }
        }
    }
}

proof fn lemma_ascii_concat(a: Seq<u8>, b: Seq<u8>)
    requires
        all_ascii(a),
        all_ascii(b),
    ensures
        all_ascii(a + b),
{
    assert forall|i: int| 0 <= i < (a + b).len() implies (a + b)[i] < 128 by {
        if i < a.len() {
            assert((a + b)[i] == a[i]);
        } else {
            assert((a + b)[i] == b[i - a.len()]);
        }
    }
}

/// ASCII bytes are valid UTF-8.
proof fn lemma_ascii_valid_utf8(b: Seq<u8>)
    requires
        all_ascii(b),
    ensures
        valid_utf8(b),
{
    assert(b.subrange(0, 0) =~= Seq::<u8>::empty());
    assert(valid_utf8(Seq::<u8>::empty()));
    partial_valid_utf8_extend_ascii_block(b, 0, b.len() as int);
    assert(b.subrange(0, b.len() as int) =~= b);
}

/// Appends the digits of `n`; see [`decimal`].
fn push_decimal(out: &mut Vec<u8>, n: u64, width: u64)
    ensures
        final(out)@ == old(out)@ + decimal(n as nat, width as nat),
    decreases n + width,
{
    if n < 10 && width <= 1 {
        out.push((48 + n) as u8);
        assert(final(out)@ =~= old(out)@ + decimal(n as nat, width as nat));
    } else {
        let w = if width > 0 {
            width - 1
        } else {
            0
        };
        push_decimal(out, n / 10, w);
        out.push((48 + n % 10) as u8);
        assert(final(out)@ =~= old(out)@ + decimal(n as nat, width as nat));
    }
}

/// Appends the text of `v`; see [`int_text`].
fn push_int(out: &mut Vec<u8>, v: i32, width: u64)
    ensures
        final(out)@ == old(out)@ + int_text(v as int, width as nat),
{
    if v < 0 {
        out.push(45);
        let mag = (-(v as i64)) as u64;
        push_decimal(out, mag, width);
        assert(final(out)@ =~= old(out)@ + int_text(v as int, width as nat));
    } else {
        push_decimal(out, v as u64, width);
    }
}

/// An instant in whole seconds since the Unix epoch.
#[derive(Debug, Clone, Copy, Default, PartialEq, Eq, PartialOrd, Ord, Structural)]
pub struct UnixTime(u64);

impl UnixTime {
    pub closed spec fn spec_secs(&self) -> u64 {
        self.0
    }

    /// `sec` seconds after the epoch.
    pub fn new(sec: u64) -> (r: UnixTime)
        ensures
            r.secs() == sec,
    {
        UnixTime(sec)
    }

    /// Seconds after the epoch.
    #[verifier::when_used_as_spec(spec_secs)]
    pub fn secs(&self) -> (r: u64)
        ensures
            r == self.spec_secs(),
    {
        self.0
    }

    /// Midnight at the start of a civil date from 1970-01-01 on.
    pub fn from_ymd(y: i32, m: i32, d: i32) -> (r: UnixTime)
        requires
            date_in_range(y as int, m as int, d as int),
            jdn_of(y as int, m as int, d as int) >= JULIAN_EPOCH,
        ensures
            r.secs() == (jdn_of(y as int, m as int, d as int) - JULIAN_EPOCH) * SECS_PER_DAY,
    {
        match Julian::new_jdn(y, m, d) {
            Some(j) => UnixTime(j.to_time_t()),
            None => UnixTime(0),
        }
    }

    /// The start of hour `hr` after the epoch.
    pub fn from_hours(hr: u32) -> (r: UnixTime)
        ensures
            r.secs() == hr * 3600,
    {
        UnixTime(hr as u64 * 3600)
    }

    /// The instant `hh:mm:ss` past this one.
    pub fn and_hms(&self, hh: u32, mm: u32, ss: u32) -> (r: UnixTime)
        requires
            hh * 3600 + mm * 60 + ss <= u32::MAX,
            self.secs() + hh * 3600 + mm * 60 + ss <= u64::MAX,
        ensures
            r.secs() == self.secs() + hh * 3600 + mm * 60 + ss,
    {
        let sec = hh * 3600 + mm * 60 + ss;
        UnixTime(self.0 + sec as u64)
    }

    /// This instant with `nano` nanoseconds past it.
    pub fn and_nanos(&self, nano: u32) -> (r: TimeVal)
        requires
            self.secs() + (nano as int) / (NANOS_PER_SEC as int) <= u64::MAX,
        ensures
            r.as_secs() == self.secs() + (nano as int) / (NANOS_PER_SEC as int),
            r.subsec_nanos() == (nano as int) % (NANOS_PER_SEC as int),
    {
        TimeVal::new(self.0, nano)
    }

    /// This instant with `micros` microseconds past it.
    pub fn and_micros(&self, micros: u32) -> (r: TimeVal)
        requires
            micros * 1000 <= u32::MAX,
            self.secs() + (micros * 1000) / (NANOS_PER_SEC as int) <= u64::MAX,
        ensures
            r.as_secs() == self.secs() + (micros * 1000) / (NANOS_PER_SEC as int),
            r.subsec_nanos() == (micros * 1000) % (NANOS_PER_SEC as int),
    {
        TimeVal::new(self.0, micros * 1000)
    }

    /// This instant with `millis` milliseconds past it.
    pub fn and_millis(&self, millis: u32) -> (r: TimeVal)
        requires
            millis * 1_000_000 <= u32::MAX,
            self.secs() + (millis * 1_000_000) / (NANOS_PER_SEC as int) <= u64::MAX,
        ensures
            r.as_secs() == self.secs() + (millis * 1_000_000) / (NANOS_PER_SEC as int),
            r.subsec_nanos() == (millis * 1_000_000) % (NANOS_PER_SEC as int),
    {
        TimeVal::new(self.0, millis * 1_000_000)
    }

    /// The civil date `(year, month, day)` of the instant.
    pub fn date(&self) -> (r: (i32, i32, i32))
        requires
            JULIAN_EPOCH + self.secs() / SECS_PER_DAY <= i32::MAX,
        ensures
            (r.0 as int, r.1 as int, r.2 as int) == civil_of(
                JULIAN_EPOCH + self.secs() / SECS_PER_DAY,
            ),
    {
        Julian::from_time_t(self.0).date()
    }

    /// Whether the instant is the start of a day.
    pub fn is_midnight(&self) -> (r: bool)
        ensures
            r == (self.secs() % SECS_PER_DAY == 0),
    {
        self.0 % SECS_PER_DAY == 0
    }

    /// The instant as text; see [`unix_time_text`].
    pub fn to_string(&self) -> (r: String)
        requires
            JULIAN_EPOCH + self.secs() / SECS_PER_DAY <= i32::MAX,
        ensures
            encode_utf8(r@) == unix_time_text(self.secs() as int),
    {
        let (y, m, d) = self.date();
        let mut out: Vec<u8> = Vec::new();
        push_int(&mut out, y, 1);
        out.push(45);
        push_int(&mut out, m, 2);
        out.push(45);
        push_int(&mut out, d, 2);
        let ghost date = out@;
        if self.is_midnight() {
            out.push(85);
            out.push(84);
            out.push(67);
        } else {
            let (hh, mm, ss) = self.hms();
            out.push(32);
            push_decimal(&mut out, hh as u64, 2);
            out.push(58);
            push_decimal(&mut out, mm as u64, 2);
            out.push(58);
            push_decimal(&mut out, ss as u64, 2);
            out.push(90);
        }
        assert(out@ =~= unix_time_text(self.secs() as int));
        proof {
            let t = unix_time_text(self.secs() as int);
            let (cy, cm, cd) = civil_of(JULIAN_EPOCH + self.secs() / SECS_PER_DAY);
            lemma_decimal_ascii((if cy < 0 { -cy } else { cy }) as nat, 1);
            lemma_decimal_ascii((if cm < 0 { -cm } else { cm }) as nat, 2);
            lemma_decimal_ascii((if cd < 0 { -cd } else { cd }) as nat, 2);
            lemma_decimal_ascii(((self.secs() % 86400) / 3600) as nat, 2);
            lemma_decimal_ascii(((self.secs() % 3600) / 60) as nat, 2);
            lemma_decimal_ascii((self.secs() % 60) as nat, 2);
            assert(all_ascii(t));
            lemma_ascii_valid_utf8(t);
        }
        match str_from_utf8(out.as_slice()) {
            Some(text) => text.to_owned(),
            None => String::new(),
        }
    }

    /// Hours, minutes and seconds past the start of the day.
    pub fn hms(&self) -> (r: (u32, u32, u32))
        ensures
            r.0 == (self.secs() % SECS_PER_DAY) / 3600,
            r.1 == (self.secs() % 3600) / 60,
            r.2 == self.secs() % 60,
    {
        let hms = (self.0 % SECS_PER_DAY) as u32;
        let hh = hms / 3600;
        let mmss = hms % 3600;
        let mm = mmss / 60;
        let ss = mmss % 60;
        proof {
            let s = self.0 as int;
            assert((s % 86400) % 3600 == s % 3600) by (nonlinear_arith)
                requires
                    s >= 0,
            ;
            assert((s % 3600) % 60 == s % 60) by (nonlinear_arith)
                requires
                    s >= 0,
            ;
        }
        (hh, mm, ss)
    }
}

impl vstd::std_specs::convert::FromSpecImpl<Julian> for UnixTime {
    open spec fn obeys_from_spec() -> bool {
        false
    }

    open spec fn from_spec(v: Julian) -> UnixTime {
        arbitrary()
    }
}

impl From<Julian> for UnixTime {
    /// The start of the day; a day before 1970-01-01 gives the epoch.
    fn from(dt: Julian) -> UnixTime {
        if dt.jdn() >= JULIAN_EPOCH {
            UnixTime(dt.to_time_t())
        } else {
            UnixTime(0)
        }
    }
}

} // verus!
