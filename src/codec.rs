//! A positional little-endian binary codec.
mod de;
mod error;
mod ser;

pub use de::{
    from_bytes, from_msg, le_u128_at, le_u16_at, le_u32_at, le_u64_at, parse_exact, parse_seq,
    prefixed_bytes, Decode, Deserializer,
};
pub use error::{Error, Result};
pub use ser::{lemma_codec_round_trip, to_bytes, to_msg, wire_seq, Encode, Serializer};
pub(crate) use de::str_from_utf8;
