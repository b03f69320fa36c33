use libts::time::JULIAN_EPOCH;
use libts::{u64_add, u64_addc, u64_sub, u64_subc, DateTime, Julian, PriceType, SysClock, TimeVal, UnixTime};

#[test]
fn test_epoch() {
    let jd: Julian = Default::default();
    let epo = Julian::new(19700101).unwrap();
    assert!(jd == epo);
    let epo = Julian::from(JULIAN_EPOCH);
    assert!(jd == epo);
    let epo = Julian::from(JULIAN_EPOCH as u32);
    assert!(jd == epo);
}

#[test]
fn test_date() {
    let jd: Julian = Default::default();
    let (y, m, d) = jd.date();
    assert_eq!(y, 1970);
    assert_eq!(m, 1);
    assert_eq!(d, 1);
    let jd = Julian::new_jdn(2018, 10, 1).unwrap();
    let jd1 = Julian::from(jd.jdn());
    assert!(jd == jd1);
    let (y, m, d) = jd.date();
    assert_eq!(y, 2018);
    assert_eq!(m, 10);
    assert_eq!(d, 1);
    println!("dump julian(2018,10,1): {:?}", jd.date());
    let jd1 = Julian::from((2018, 10, 1));
    assert!(jd == jd1);
}

#[test]
fn test_timestamp() {
    let ts1 = TimeVal::from(Julian::new(20220101).unwrap());
    let (y, m, d) = ts1.date();
    assert_eq!(y, 2022);
    assert_eq!(m, 1);
    assert_eq!(d, 1);
}

#[test]
fn test_u64_subc() {
    assert_eq!(u64_subc(1, 0, 0), (1, 0));
    assert_eq!(u64_subc(1, 0, 1), (0, 0));
    assert_eq!(u64_subc(1, 1, 0), (0, 0));
    assert_eq!(u64_subc(1, 1, 1), (0xffffffffffffffff, 1));
    assert_eq!(u64_subc(1, 2, 0), (0xffffffffffffffff, 1));
}

#[test]
fn test_u64_sub() {
    assert_eq!(u64_sub(1, 0), (1, 0));
    assert_eq!(u64_sub(1, 1), (0, 0));
    assert_eq!(u64_sub(1, 2), (0xffffffffffffffff, 1));
}

#[test]
fn time_u64_add_carries() {
    assert_eq!(u64_add(u64::MAX, 1), (0, 1));
    assert_eq!(u64_add(2, 3), (5, 0));
    assert_eq!(u64_addc(u64::MAX, u64::MAX, 1), (u64::MAX, 1));
}

#[test]
fn time_julian_dates() {
    let jd = Julian::new(20221231).unwrap();
    assert_eq!(jd.date(), (2022, 12, 31));
    assert_eq!(Julian::new(20221131).map(|j| j.date()), Some((2022, 12, 1)));
    assert!(Julian::new(20221301).is_none());
    assert!(Julian::new(20220100).is_none());
    assert!(Julian::new(-1).is_none());
    assert_eq!(Julian::new(20000229).unwrap().jdn(), 2451604);
    assert_eq!(Julian::new(19700102).unwrap().to_time_t(), 86400);
}

#[test]
fn time_unix_time() {
    let t = UnixTime::from_ymd(2022, 1, 1).and_hms(8, 30, 5);
    assert_eq!(t.secs(), 1640995200 + 8 * 3600 + 30 * 60 + 5);
    assert_eq!(t.hms(), (8, 30, 5));
    assert_eq!(t.date(), (2022, 1, 1));
    assert!(!t.is_midnight());
    assert!(UnixTime::from(Julian::new(20220101).unwrap()).is_midnight());
    assert_eq!(UnixTime::from_hours(2).secs(), 7200);
    let tv = t.and_millis(250);
    assert_eq!(tv.subsec_nanos(), 250_000_000);
    assert_eq!(t.and_micros(7).subsec_nanos(), 7000);
    assert_eq!(t.and_nanos(1_500_000_000).as_secs(), t.secs() + 1);
}

#[test]
fn time_timeval_arithmetic() {
    let a = TimeVal::new(10, 900_000_000);
    let b = TimeVal::new(1, 200_000_000);
    let s = a + b;
    assert_eq!((s.as_secs(), s.subsec_nanos()), (12, 100_000_000));
    let d = a - b;
    assert_eq!((d.as_secs(), d.subsec_nanos()), (9, 700_000_000));
    let d = b - a;
    assert_eq!((d.as_secs(), d.subsec_nanos()), (u64::MAX - 9, 300_000_000));
    let n = a + 2_100_000_000u64;
    assert_eq!((n.as_secs(), n.subsec_nanos()), (13, 0));
    assert!(b.is_before(&a));
    assert!(!a.is_before(&a));
    let t = TimeVal::new(3 * 86400 + 3723, 456_789_000);
    assert_eq!(t.days(), 3);
    assert_eq!(t.hms(), (1, 2, 3));
    assert_eq!(t.as_hours(), 73);
    assert_eq!(t.subhour_micros(), 123_456_789);
    assert_eq!(TimeVal::from_hours(3).as_secs(), 10800);
    assert_eq!(t.to_duration().as_secs(), 3 * 86400 + 3723);
}

#[test]
fn time_sysclock_offset_only_grows() {
    let wall = TimeVal::new(100, 0);
    let plain = SysClock::new(false);
    assert!(plain.now_at(&wall) == wall);
    let mut clk = SysClock::new(true);
    clk.set_timeval(&TimeVal::new(1000, 0), &wall);
    let now = clk.now_at(&wall);
    assert_eq!(now.as_secs(), 1000);
    // the new offset is measured from the clock's own reading
    clk.set_timeval(&TimeVal::new(2000, 0), &wall);
    assert_eq!(clk.now_at(&wall).as_secs(), 1100);
}

#[test]
fn time_datetime_seconds() {
    let dt = DateTime::<1000, false>::new(8123);
    assert_eq!(dt.as_secs(), 8);
    let dt = DateTime::<1000000, true>::new(8123456);
    assert_eq!(dt.as_secs(), 8);
    let dt = DateTime::<1, false>::new(8123);
    assert_eq!(dt.as_secs(), 8123);
    let dt = DateTime::new_us(8123456);
    assert_eq!(dt.as_secs(), 8);
    assert_eq!(DateTime::new_ms(-1500).as_secs(), (-1i64) as u64);
}

#[test]
fn time_price_type_clamps() {
    assert_eq!(PriceType::default().digits(), 0);
    assert_eq!(PriceType::new(2).digits(), 2);
    assert_eq!(PriceType::new(9).digits(), 6);
    assert_eq!(PriceType::new(-5).digits(), -2);
}

#[test]
fn time_datetime_from_timeval() {
    let tv = TimeVal::new(8, 123_456_789);
    assert_eq!(DateTime::<1000, false>::from_timeval(&tv).count(), 8123);
    assert_eq!(DateTime::<1000000, true>::from_timeval(&tv).count(), 8123456);
    assert_eq!(DateTime::<1, false>::from_timeval(&tv).count(), 8);
    assert!(SysClock::new(true).is_sim());
    assert!(!SysClock::new(false).is_sim());
}

#[test]
fn time_unix_time_text() {
    let ts1 = UnixTime::from(Julian::new(20220101).unwrap());
    assert_eq!(ts1.to_string(), "2022-01-01UTC");
    let t = ts1.and_hms(8, 5, 9);
    assert_eq!(t.to_string(), "2022-01-01 08:05:09Z");
    assert_eq!(UnixTime::new(0).to_string(), "1970-01-01UTC");
}

fn secs_f64<const DUR: u32, const IS_UTC: bool>(dt: &DateTime<DUR, IS_UTC>) -> f64 {
    (dt.count() as f64) / (DUR as f64)
}

#[test]
fn test_datetime() {
    let dt = DateTime::<1000, false>::new(8123);
    assert_eq!(dt.as_secs(), 8);
    assert_eq!(secs_f64(&dt), 8.123);
    let dt = DateTime::<1000000, true>::new(8123456);
    assert_eq!(dt.as_secs(), 8);
    assert_eq!(secs_f64(&dt), 8.123456);
    println!("DateTime<us>: {}", dt.count());
    let dt = dt + 111000;
    assert_eq!(secs_f64(&dt), 8.234456);
    let dt = DateTime::<1, false>::new(8123);
    assert_eq!(dt.as_secs(), 8123);
    assert_eq!(secs_f64(&dt), 8123.0);
    let dt = DateTime::new_us(8123456);
    assert_eq!(dt.as_secs(), 8);
    assert_eq!(secs_f64(&dt), 8.123456);
}

#[test]
fn test_unixtime() {
    let ts1 = UnixTime::from(Julian::new(20220101).unwrap());
    assert_eq!(ts1.to_string(), "2022-01-01UTC");
    let (y, m, d) = ts1.date();
    assert_eq!(y, 2022);
    assert_eq!(m, 1);
    assert_eq!(d, 1);
    println!("UnixTime: {}", ts1.to_string());
}

#[test]
fn time_datetime_ops() {
    let a = DateTime::<1000, false>::new(5000);
    let b = DateTime::<1000, false>::new(1500);
    assert!(a + b == DateTime::<1000, false>::new(6500));
    assert!(a - b == DateTime::<1000, false>::new(3500));
    assert!(a - 6000u32 == DateTime::<1000, false>::new(-1000));
}
