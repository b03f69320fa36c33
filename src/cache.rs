//! A read-only view of a message cache segment: a 64-byte header followed by
//! an array of 64-byte message envelopes.
use vstd::bytes::*;
use vstd::prelude::*;

use crate::codec::{le_u16_at, le_u32_at, le_u64_at, Error, Result};
use crate::record::{ClMessage, CLMSG_CAP};

verus! {

/// Bytes the header takes at the start of a segment.
pub const HEADER_SIZE: usize = 64;

/// Bytes each envelope takes in a segment.
pub const RECORD_SIZE: usize = 64;

/// The header of a cache segment, as a recorder wrote it.
#[derive(Debug, Clone, Copy, Default, PartialEq, Eq)]
pub struct MdHeader {
    pub init_time: i64,
    pub shut_time: i64,
    pub max_messages: u64,
    pub cnt_messages: u64,
    pub rec_size: i32,
    pub session_no: i32,
    pub md_len: u64,
}

/// The header that the first bytes of `b` hold: seven little-endian fields
/// at offsets 0, 8, 16, 24, 32, 36 and 40.
pub open spec fn header_of(b: Seq<u8>) -> MdHeader {
    MdHeader {
        init_time: spec_u64_from_le_bytes(b.subrange(0, 8)) as i64,
        shut_time: spec_u64_from_le_bytes(b.subrange(8, 16)) as i64,
        max_messages: spec_u64_from_le_bytes(b.subrange(16, 24)),
        cnt_messages: spec_u64_from_le_bytes(b.subrange(24, 32)),
        rec_size: spec_u32_from_le_bytes(b.subrange(32, 36)) as i32,
        session_no: spec_u32_from_le_bytes(b.subrange(36, 40)) as i32,
        md_len: spec_u64_from_le_bytes(b.subrange(40, 48)),
    }
}

impl MdHeader {
    /// Whether a segment of `md_len` bytes has room for the header and all
    /// `max_messages` envelopes.
    pub open spec fn plausible(self) -> bool {
        self.md_len >= HEADER_SIZE + RECORD_SIZE * self.max_messages
    }

    /// Reads a header from the first 64 bytes of `b`; `Eof` when `b` is
    /// shorter.
    pub fn from_bytes(b: &[u8]) -> (r: Result<MdHeader>)
        ensures
            b@.len() < HEADER_SIZE ==> r == Err::<MdHeader, Error>(Error::Eof),
            b@.len() >= HEADER_SIZE ==> r == Ok::<MdHeader, Error>(header_of(b@)),
    {
        if b.len() < HEADER_SIZE {
            return Err(Error::Eof);
        }
        Ok(
            MdHeader {
                init_time: le_u64_at(b, 0) as i64,
                shut_time: le_u64_at(b, 8) as i64,
                max_messages: le_u64_at(b, 16),
                cnt_messages: le_u64_at(b, 24),
                rec_size: le_u32_at(b, 32) as i32,
                session_no: le_u32_at(b, 36) as i32,
                md_len: le_u64_at(b, 40),
            },
        )
    }
}

/// The payload of envelope `i` in a segment: its stored count (at most 62
/// bytes are kept) and the payload bytes after it.
pub open spec fn record_at(region: Seq<u8>, i: int) -> Seq<u8> {
    let start = HEADER_SIZE + RECORD_SIZE * i;
    let n = spec_u16_from_le_bytes(region.subrange(start, start + 2));
    let kept = if n > CLMSG_CAP {
        CLMSG_CAP as int
    } else {
        n as int
    };
    region.subrange(start + 2, start + 2 + kept)
}

/// A view of a mapped cache segment: its header, read when the view was
/// made, and the segment's bytes.
pub struct MdCache<'a> {
    md_header: MdHeader,
    region: &'a [u8],
}

impl<'a> MdCache<'a> {
    #[verifier::type_invariant]
    closed spec fn inv(self) -> bool {
        &&& self.md_header == header_of(self.region@)
        &&& self.region@.len() >= HEADER_SIZE + RECORD_SIZE * self.md_header.max_messages
    }

    /// The segment's bytes.
    pub closed spec fn region(self) -> Seq<u8> {
        self.region@
    }

    /// Opens a view of `region`. Fails with `Eof` when it is shorter than a
    /// header or than the header's `md_len`, and with `Syntax` when `md_len`
    /// has no room for the header and `max_messages` envelopes.
    pub fn new(region: &'a [u8]) -> (r: Result<MdCache<'a>>)
        ensures
            region@.len() < HEADER_SIZE ==> r == Err::<MdCache<'a>, Error>(Error::Eof),
            region@.len() >= HEADER_SIZE && !header_of(region@).plausible() ==> r == Err::<
                MdCache<'a>,
                Error,
            >(Error::Syntax),
            region@.len() >= HEADER_SIZE && header_of(region@).plausible() && region@.len()
                < header_of(region@).md_len ==> r == Err::<MdCache<'a>, Error>(Error::Eof),
            region@.len() >= HEADER_SIZE && header_of(region@).plausible() && region@.len()
                >= header_of(region@).md_len ==> r is Ok && r->Ok_0.region() == region@
                && r->Ok_0.header() == header_of(region@),
    {
        let md = MdHeader::from_bytes(region)?;
        let need: u128 = HEADER_SIZE as u128 + RECORD_SIZE as u128 * md.max_messages as u128;
        if (md.md_len as u128) < need {
            return Err(Error::Syntax);
        }
        if (region.len() as u128) < md.md_len as u128 {
            return Err(Error::Eof);
        }
        Ok(MdCache { md_header: md, region })
    }

    /// The header read when the view was made.
    pub closed spec fn spec_header(&self) -> MdHeader {
        self.md_header
    }

    /// The header read when the view was made.
    #[verifier::when_used_as_spec(spec_header)]
    pub fn header(&self) -> (r: MdHeader)
        ensures
            r == self.spec_header(),
    {
        self.md_header
    }

    /// How many envelopes the segment has room for.
    pub fn cap(&self) -> (r: usize)
        ensures
            r == self.header().max_messages,
    {
        proof {
            use_type_invariant(self);
        }
        let _ = self.region.len();
        self.md_header.max_messages as usize
    }

    /// How many envelopes hold messages: the count in the segment's header,
    /// read now, and never more than [`MdCache::cap`].
    pub fn len(&self) -> (r: usize)
        ensures
            r <= self.header().max_messages,
            r == if header_of(self.region()).cnt_messages > self.header().max_messages {
                self.header().max_messages
            } else {
                header_of(self.region()).cnt_messages
            },
    {
        proof {
            use_type_invariant(self);
        }
        let _ = self.region.len();
        let cnt = le_u64_at(self.region, 24);
        let max = self.md_header.max_messages;
        if cnt > max {
            max as usize
        } else {
            cnt as usize
        }
    }

    /// Envelope `i`, or `None` past [`MdCache::cap`].
    pub fn msg(&self, i: usize) -> (r: Option<ClMessage>)
        ensures
            i >= self.header().max_messages ==> r is None,
            i < self.header().max_messages ==> r is Some && r->Some_0@ == record_at(
                self.region(),
                i as int,
            ),
    {
        proof {
            use_type_invariant(self);
        }
        if i as u64 >= self.md_header.max_messages {
            return None;
        }
        let rlen = self.region.len();
        proof {
            let max = self.md_header.max_messages as int;
            assert(RECORD_SIZE * i + RECORD_SIZE <= RECORD_SIZE * max) by (nonlinear_arith)
                requires
                    i < max,
            ;
        }
        let start = HEADER_SIZE + RECORD_SIZE * i;
        let n = le_u16_at(self.region, start);
        let kept: usize = if n as usize > CLMSG_CAP {
            CLMSG_CAP
        } else {
            n as usize
        };
        let payload = vstd::slice::slice_subrange(self.region, start + 2, start + 2 + kept);
        let m = ClMessage::new(payload);
        assert(payload@.take(payload@.len() as int) =~= payload@);
        Some(m)
    }

    /// All [`MdCache::cap`] envelopes, in order.
    pub fn msgs(&self) -> (r: Vec<ClMessage>)
        ensures
            r@.len() == self.header().max_messages,
            forall|i: int| 0 <= i < r@.len() ==> #[trigger] r@[i]@ == record_at(self.region(), i),
    {
        let cap = self.cap();
        let mut out: Vec<ClMessage> = Vec::new();
        let mut i: usize = 0;
        while i < cap
            invariant
                cap == self.header().max_messages,
                i <= cap,
                out@.len() == i,
                forall|j: int| 0 <= j < i ==> #[trigger] out@[j]@ == record_at(self.region(), j),
            decreases cap - i,
        {
            match self.msg(i) {
                Some(m) => out.push(m),
                None => {},
            }
            i = i + 1;
        }
        out
    }
}

} // verus!
