//! Fixed-layout little-endian market-data codec, message catalogue and cache views.
pub mod cache;
pub mod codec;
pub mod mounts;
pub mod pitch;
pub mod record;
pub mod time;

pub use cache::{MdCache, MdHeader};
pub use codec::{from_bytes, from_msg, to_bytes, to_msg, Decode, Deserializer, Encode, Error};
pub use record::ClMessage;
pub use time::{
    u64_add, u64_addc, u64_sub, u64_subc, DateTime, Julian, PriceType, SysClock, TimeVal, UnixTime,
};
