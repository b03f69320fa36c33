//! Calendar and clock arithmetic used to stamp and print header fields.
mod carry;
mod datetime;
mod julian;
mod price_type;
mod timestamp;
mod unix_time;

pub use carry::{two64, u64_add, u64_addc, u64_sub, u64_subc};
pub use datetime::{trunc_div, DateTime, MICROS_PER_SEC, MILLIS_PER_SEC};
pub use julian::{civil_of, date_in_range, jdn_of, yyyymmdd, Julian, JULIAN_EPOCH, SECS_PER_DAY};
pub use price_type::{PriceType, DIGIT_MAX, DIGIT_MIN};
pub use timestamp::{Dur, SysClock, TimeVal, NANOS_PER_SEC};
pub use unix_time::UnixTime;
