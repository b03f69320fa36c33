//! Decoding: fixed-layout little-endian bytes into values, one field at a time.
use vstd::bytes::*;
use vstd::prelude::*;
use vstd::string::StringSliceAdditionalSpecFns;
use vstd::utf8::*;

use super::error::{Error, Result};
use crate::record::ClMessage;

verus! {

/// A cursor over the bytes still to be decoded.
pub struct Deserializer<'de> {
    input: &'de [u8],
}

impl<'de> View for Deserializer<'de> {
    type V = Seq<u8>;

    /// The bytes not consumed yet.
    closed spec fn view(&self) -> Seq<u8> {
        self.input@
    }
}

/// Relies on `std::str::from_utf8`: it succeeds exactly on valid UTF-8, and the
/// text it returns has the same bytes.
#[verifier::external_body]
pub(crate) fn str_from_utf8<'a>(b: &'a [u8]) -> (r: Option<&'a str>)
    ensures
        r is Some <==> valid_utf8(b@),
        r matches Some(s) ==> s.spec_bytes() == b@,
{
    std::str::from_utf8(b).ok()
}

/// The bytes a length-prefixed field takes: one count byte and that many bytes.
pub open spec fn prefixed_bytes(input: Seq<u8>) -> Result<(Seq<u8>, nat)> {
    if input.len() < 1 {
        Err(Error::Eof)
    } else if input.len() < 1 + input[0] {
        Err(Error::Eof)
    } else {
        Ok((input.subrange(1, 1 + input[0]), 1 + input[0] as nat))
    }
}

impl<'de> Deserializer<'de> {
    /// A cursor at the start of `input`.
    pub fn from_bytes(input: &'de [u8]) -> (r: Deserializer<'de>)
        ensures
            r@ == input@,
    {
        Deserializer { input }
    }

    /// Count of bytes not consumed yet.
    pub fn remaining(&self) -> (r: usize)
        ensures
            r == self@.len(),
    {
        self.input.len()
    }

    /// The next byte, left in place.
    pub fn peek_byte(&self) -> (r: Result<u8>)
        ensures
            self@.len() == 0 ==> r == Err::<u8, Error>(Error::Eof),
            self@.len() > 0 ==> r == Ok::<u8, Error>(self@[0]),
    {
        if self.input.len() == 0 {
            Err(Error::Eof)
        } else {
            Ok(self.input[0])
        }
    }

    /// Consumes `n` bytes and returns them; fails with `Eof`, consuming
    /// nothing, when fewer are left.
    pub fn next_bytes(&mut self, n: usize) -> (r: Result<&'de [u8]>)
        ensures
            old(self)@.len() < n ==> r == Err::<&'de [u8], Error>(Error::Eof) && final(self)@ == old(self)@,
            old(self)@.len() >= n ==> r is Ok && r->Ok_0@ == old(self)@.take(n as int)
                && final(self)@ == old(self)@.skip(n as int),
    {
        if self.input.len() < n {
            Err(Error::Eof)
        } else {
            let (le, ri) = self.input.split_at(n);
            self.input = ri;
            Ok(le)
        }
    }

    /// Consumes `N` bytes and returns them; see [`Deserializer::next_bytes`].
    pub fn parse_nbytes<const N: usize>(&mut self) -> (r: Result<&'de [u8]>)
        ensures
            old(self)@.len() < N ==> r == Err::<&'de [u8], Error>(Error::Eof) && final(self)@ == old(self)@,
            old(self)@.len() >= N ==> r is Ok && r->Ok_0@ == old(self)@.take(N as int)
                && final(self)@ == old(self)@.skip(N as int),
    {
        self.next_bytes(N)
    }

    /// Consumes one byte.
    pub fn next_byte(&mut self) -> (r: Result<u8>)
        ensures
            old(self)@.len() == 0 ==> r == Err::<u8, Error>(Error::Eof) && final(self)@ == old(self)@,
            old(self)@.len() > 0 ==> r == Ok::<u8, Error>(old(self)@[0]) && final(self)@ == old(
                self,
            )@.skip(1),
    {
        let b = self.next_bytes(1)?;
        Ok(b[0])
    }

    /// Consumes one byte: zero is false, anything else true.
    pub fn parse_bool(&mut self) -> (r: Result<bool>)
        ensures
            old(self)@.len() == 0 ==> r == Err::<bool, Error>(Error::Eof) && final(self)@ == old(
                self,
            )@,
            old(self)@.len() > 0 ==> r == Ok::<bool, Error>(old(self)@[0] != 0) && final(self)@
                == old(self)@.skip(1),
    {
        let b = self.next_byte()?;
        Ok(b != 0)
    }

    /// Consumes a count byte and that many raw bytes, and returns the latter.
    pub fn parse_bytes(&mut self) -> (r: Result<&'de [u8]>)
        ensures
            match prefixed_bytes(old(self)@) {
                Ok((b, n)) => r is Ok && r->Ok_0@ == b && final(self)@ == old(self)@.skip(n as int),
                Err(e) => r == Err::<&'de [u8], Error>(e),
            },
    {
        let ghost input = self@;
        let n = self.next_byte()?;
        let r = self.next_bytes(n as usize);
        proof {
            if input.len() >= 1 + n {
                assert(input.skip(1).take(n as int) =~= input.subrange(1, 1 + n));
                assert(input.skip(1).skip(n as int) =~= input.skip(1 + n));
            }
        }
        r
    }

    /// Consumes a count byte and that many bytes, which must be valid UTF-8.
    pub fn parse_string(&mut self) -> (r: Result<&'de str>)
        ensures
            match prefixed_bytes(old(self)@) {
                Ok((b, n)) => if valid_utf8(b) {
                    r is Ok && r->Ok_0@ == decode_utf8(b) && final(self)@ == old(self)@.skip(
                        n as int,
                    )
                } else {
                    r == Err::<&'de str, Error>(Error::ExpectedString)
                },
                Err(e) => r == Err::<&'de str, Error>(e),
            },
    {
        let b = self.parse_bytes()?;
        match str_from_utf8(b) {
            Some(s) => {
                proof {
                    decode_utf8_encode_utf8(b@);
                    encode_utf8_decode_utf8(s@);
                }
                Ok(s)
            },
            None => Err(Error::ExpectedString),
        }
    }
}


/// The little-endian `u16` at `off` in `b`.
pub fn le_u16_at(b: &[u8], off: usize) -> (r: u16)
    requires
        off + 2 <= b@.len(),
    ensures
        r == spec_u16_from_le_bytes(b@.subrange(off as int, off + 2)),
{
    let len = b.len();
    u16_from_le_bytes(vstd::slice::slice_subrange(b, off, off + 2))
}

/// The little-endian `u32` at `off` in `b`.
pub fn le_u32_at(b: &[u8], off: usize) -> (r: u32)
    requires
        off + 4 <= b@.len(),
    ensures
        r == spec_u32_from_le_bytes(b@.subrange(off as int, off + 4)),
{
    let len = b.len();
    u32_from_le_bytes(vstd::slice::slice_subrange(b, off, off + 4))
}

/// The little-endian `u64` at `off` in `b`.
pub fn le_u64_at(b: &[u8], off: usize) -> (r: u64)
    requires
        off + 8 <= b@.len(),
    ensures
        r == spec_u64_from_le_bytes(b@.subrange(off as int, off + 8)),
{
    let len = b.len();
    u64_from_le_bytes(vstd::slice::slice_subrange(b, off, off + 8))
}

/// The little-endian `u128` at `off` in `b`.
pub fn le_u128_at(b: &[u8], off: usize) -> (r: u128)
    requires
        off + 16 <= b@.len(),
    ensures
        r == spec_u128_from_le_bytes(b@.subrange(off as int, off + 16)),
{
    let len = b.len();
    u128_from_le_bytes(vstd::slice::slice_subrange(b, off, off + 16))
}

/// A value with a fixed positional layout that can be read from the front of
/// a byte sequence.
pub trait Decode: Sized + DeepView {
    /// What reading a value at the front of `input` gives: the value and the
    /// count of bytes it takes, or the error.
    spec fn parse(input: Seq<u8>) -> Result<(Self::V, nat)>;

    /// A value never takes more bytes than there are.
    proof fn lemma_parse_len(input: Seq<u8>)
        ensures
            Self::parse(input) matches Ok((v, n)) ==> n <= input.len(),
    ;

    /// Reads a value at the cursor and moves past it.
    fn decode<'de>(de: &mut Deserializer<'de>) -> (r: Result<Self>)
        ensures
            match Self::parse(old(de)@) {
                Ok((v, n)) => r is Ok && r->Ok_0.deep_view() == v && final(de)@ == old(de)@.skip(
                    n as int,
                ),
                Err(e) => r == Err::<Self, Error>(e),
            },
    ;
}

/// What reading a value that must take all of `input` gives.
pub open spec fn parse_exact<T: Decode>(input: Seq<u8>) -> Result<T::V> {
    match T::parse(input) {
        Ok((v, n)) => if n == input.len() {
            Ok(v)
        } else {
            Err(Error::TrailingCharacters)
        },
        Err(e) => Err(e),
    }
}

/// Decodes a value that must take all of `s`: any byte left over is a
/// `TrailingCharacters` error.
pub fn from_bytes<T: Decode>(s: &[u8]) -> (r: Result<T>)
    ensures
        match parse_exact::<T>(s@) {
            Ok(v) => r is Ok && r->Ok_0.deep_view() == v,
            Err(e) => r == Err::<T, Error>(e),
        },
{
    let mut de = Deserializer::from_bytes(s);
    let t = T::decode(&mut de)?;
    proof {
        T::lemma_parse_len(s@);
    }
    if de.remaining() == 0 {
        Ok(t)
    } else {
        Err(Error::TrailingCharacters)
    }
}

/// Decodes a value that must take all the valid payload of `msg`.
pub fn from_msg<T: Decode>(msg: &ClMessage) -> (r: Result<T>)
    ensures
        match parse_exact::<T>(msg@) {
            Ok(v) => r is Ok && r->Ok_0.deep_view() == v,
            Err(e) => r == Err::<T, Error>(e),
        },
{
    from_bytes(msg.data())
}

impl Decode for u8 {
    open spec fn parse(input: Seq<u8>) -> Result<(u8, nat)> {
        if input.len() < 1 {
            Err(Error::Eof)
        } else {
            Ok((input[0], 1))
        }
    }

    proof fn lemma_parse_len(input: Seq<u8>) {
    }

    fn decode<'de>(de: &mut Deserializer<'de>) -> (r: Result<u8>) {
        de.next_byte()
    }
}

impl Decode for i8 {
    open spec fn parse(input: Seq<u8>) -> Result<(i8, nat)> {
        if input.len() < 1 {
            Err(Error::Eof)
        } else {
            Ok((input[0] as i8, 1))
        }
    }

    proof fn lemma_parse_len(input: Seq<u8>) {
    }

    fn decode<'de>(de: &mut Deserializer<'de>) -> (r: Result<i8>) {
        let b = de.next_byte()?;
        Ok(b as i8)
    }
}

impl Decode for bool {
    open spec fn parse(input: Seq<u8>) -> Result<(bool, nat)> {
        if input.len() < 1 {
            Err(Error::Eof)
        } else {
            Ok((input[0] != 0, 1))
        }
    }

    proof fn lemma_parse_len(input: Seq<u8>) {
    }

    fn decode<'de>(de: &mut Deserializer<'de>) -> (r: Result<bool>) {
        de.parse_bool()
    }
}

impl Decode for u16 {
    open spec fn parse(input: Seq<u8>) -> Result<(u16, nat)> {
        if input.len() < 2 {
            Err(Error::Eof)
        } else {
            Ok((spec_u16_from_le_bytes(input.take(2)), 2))
        }
    }

    proof fn lemma_parse_len(input: Seq<u8>) {
    }

    fn decode<'de>(de: &mut Deserializer<'de>) -> (r: Result<u16>) {
        let b = de.next_bytes(2)?;
        Ok(u16_from_le_bytes(b))
    }
}

impl Decode for i16 {
    open spec fn parse(input: Seq<u8>) -> Result<(i16, nat)> {
        if input.len() < 2 {
            Err(Error::Eof)
        } else {
            Ok((spec_u16_from_le_bytes(input.take(2)) as i16, 2))
        }
    }

    proof fn lemma_parse_len(input: Seq<u8>) {
    }

    fn decode<'de>(de: &mut Deserializer<'de>) -> (r: Result<i16>) {
        let b = de.next_bytes(2)?;
        Ok(u16_from_le_bytes(b) as i16)
    }
}

impl Decode for u32 {
    open spec fn parse(input: Seq<u8>) -> Result<(u32, nat)> {
        if input.len() < 4 {
            Err(Error::Eof)
        } else {
            Ok((spec_u32_from_le_bytes(input.take(4)), 4))
        }
    }

    proof fn lemma_parse_len(input: Seq<u8>) {
    }

    fn decode<'de>(de: &mut Deserializer<'de>) -> (r: Result<u32>) {
        let b = de.next_bytes(4)?;
        Ok(u32_from_le_bytes(b))
    }
}

impl Decode for i32 {
    open spec fn parse(input: Seq<u8>) -> Result<(i32, nat)> {
        if input.len() < 4 {
            Err(Error::Eof)
        } else {
            Ok((spec_u32_from_le_bytes(input.take(4)) as i32, 4))
        }
    }

    proof fn lemma_parse_len(input: Seq<u8>) {
    }

    fn decode<'de>(de: &mut Deserializer<'de>) -> (r: Result<i32>) {
        let b = de.next_bytes(4)?;
        Ok(u32_from_le_bytes(b) as i32)
    }
}

impl Decode for u64 {
    open spec fn parse(input: Seq<u8>) -> Result<(u64, nat)> {
        if input.len() < 8 {
            Err(Error::Eof)
        } else {
            Ok((spec_u64_from_le_bytes(input.take(8)), 8))
        }
    }

    proof fn lemma_parse_len(input: Seq<u8>) {
    }

    fn decode<'de>(de: &mut Deserializer<'de>) -> (r: Result<u64>) {
        let b = de.next_bytes(8)?;
        Ok(u64_from_le_bytes(b))
    }
}

impl Decode for i64 {
    open spec fn parse(input: Seq<u8>) -> Result<(i64, nat)> {
        if input.len() < 8 {
            Err(Error::Eof)
        } else {
            Ok((spec_u64_from_le_bytes(input.take(8)) as i64, 8))
        }
    }

    proof fn lemma_parse_len(input: Seq<u8>) {
    }

    fn decode<'de>(de: &mut Deserializer<'de>) -> (r: Result<i64>) {
        let b = de.next_bytes(8)?;
        Ok(u64_from_le_bytes(b) as i64)
    }
}

impl Decode for u128 {
    open spec fn parse(input: Seq<u8>) -> Result<(u128, nat)> {
        if input.len() < 16 {
            Err(Error::Eof)
        } else {
            Ok((spec_u128_from_le_bytes(input.take(16)), 16))
        }
    }

    proof fn lemma_parse_len(input: Seq<u8>) {
    }

    fn decode<'de>(de: &mut Deserializer<'de>) -> (r: Result<u128>) {
        let b = de.next_bytes(16)?;
        Ok(u128_from_le_bytes(b))
    }
}

impl Decode for i128 {
    open spec fn parse(input: Seq<u8>) -> Result<(i128, nat)> {
        if input.len() < 16 {
            Err(Error::Eof)
        } else {
            Ok((spec_u128_from_le_bytes(input.take(16)) as i128, 16))
        }
    }

    proof fn lemma_parse_len(input: Seq<u8>) {
    }

    fn decode<'de>(de: &mut Deserializer<'de>) -> (r: Result<i128>) {
        let b = de.next_bytes(16)?;
        Ok(u128_from_le_bytes(b) as i128)
    }
}

impl Decode for String {
    open spec fn parse(input: Seq<u8>) -> Result<(Seq<char>, nat)> {
        match prefixed_bytes(input) {
            Ok((b, n)) => if valid_utf8(b) {
                Ok((decode_utf8(b), n))
            } else {
                Err(Error::ExpectedString)
            },
            Err(e) => Err(e),
        }
    }

    proof fn lemma_parse_len(input: Seq<u8>) {
    }

    fn decode<'de>(de: &mut Deserializer<'de>) -> (r: Result<String>) {
        let s = de.parse_string()?;
        Ok(s.to_owned())
    }
}

/// What reading `count` values one after another gives: the values and the
/// bytes they take together, or the first error.
pub open spec fn parse_seq<T: Decode>(input: Seq<u8>, count: nat) -> Result<(Seq<T::V>, nat)>
    decreases count,
{
    if count == 0 {
        Ok((Seq::empty(), 0))
    } else {
        match T::parse(input) {
            Ok((v, n)) => match parse_seq::<T>(input.skip(n as int), (count - 1) as nat) {
                Ok((vs, m)) => Ok((seq![v] + vs, n + m)),
                Err(e) => Err(e),
            },
            Err(e) => Err(e),
        }
    }
}

proof fn lemma_parse_seq_len<T: Decode>(input: Seq<u8>, count: nat)
    ensures
        parse_seq::<T>(input, count) matches Ok((vs, n)) ==> n <= input.len() && vs.len()
            == count,
    decreases count,
{
    if count > 0 {
        T::lemma_parse_len(input);
        if let Ok((v, n)) = T::parse(input) {
            lemma_parse_seq_len::<T>(input.skip(n as int), (count - 1) as nat);
        }
    }
}

/// Reading `count + 1` values is reading `count` values and then one more.
proof fn lemma_parse_seq_snoc<T: Decode>(input: Seq<u8>, count: nat)
    ensures
        parse_seq::<T>(input, count + 1) == match parse_seq::<T>(input, count) {
            Ok((vs, c)) => match T::parse(input.skip(c as int)) {
                Ok((v, n)) => Ok((vs.push(v), c + n)),
                Err(e) => Err(e),
            },
            Err(e) => Err(e),
        },
    decreases count,
{
    T::lemma_parse_len(input);
    if count == 0 {
        assert(input.skip(0) =~= input);
        if let Ok((v, n)) = T::parse(input) {
            assert(parse_seq::<T>(input.skip(n as int), 0) == Ok::<(Seq<T::V>, nat), Error>((Seq::empty(), 0)));
            assert(seq![v] + Seq::<T::V>::empty() =~= Seq::<T::V>::empty().push(v));
        }
    } else {
        if let Ok((v, n)) = T::parse(input) {
            let rest = input.skip(n as int);
            lemma_parse_seq_snoc::<T>(rest, (count - 1) as nat);
            lemma_parse_seq_len::<T>(rest, (count - 1) as nat);
            if let Ok((vs, c)) = parse_seq::<T>(rest, (count - 1) as nat) {
                assert(rest.skip(c as int) =~= input.skip((n + c) as int));
                if let Ok((w, m)) = T::parse(rest.skip(c as int)) {
                    assert(seq![v] + vs.push(w) =~= (seq![v] + vs).push(w));
                }
            }
        }
    }
}

/// Once reading values fails, reading more of them fails with the same error.
proof fn lemma_parse_seq_err<T: Decode>(input: Seq<u8>, k: nat, m: nat)
    requires
        k <= m,
        parse_seq::<T>(input, k) is Err,
    ensures
        parse_seq::<T>(input, m) == parse_seq::<T>(input, k),
    decreases m - k,
{
    if k < m {
        lemma_parse_seq_snoc::<T>(input, k);
        lemma_parse_seq_err::<T>(input, k + 1, m);
    }
}

impl<T: Decode> Decode for Vec<T> {
    /// A count byte, then that many values.
    open spec fn parse(input: Seq<u8>) -> Result<(Seq<T::V>, nat)> {
        if input.len() < 1 {
            Err(Error::Eof)
        } else {
            match parse_seq::<T>(input.skip(1), input[0] as nat) {
                Ok((vs, n)) => Ok((vs, n + 1)),
                Err(e) => Err(e),
            }
        }
    }

    proof fn lemma_parse_len(input: Seq<u8>) {
        if input.len() >= 1 {
            lemma_parse_seq_len::<T>(input.skip(1), input[0] as nat);
        }
    }

    fn decode<'de>(de: &mut Deserializer<'de>) -> (r: Result<Vec<T>>) {
        let ghost input = de@;
        let count = de.next_byte()?;
        let ghost rest = input.skip(1);
        let ghost mut used: nat = 0;
        let mut out: Vec<T> = Vec::new();
        assert(out.deep_view() =~= Seq::<T::V>::empty());
        let mut i: u8 = 0;
        while i < count
            invariant
                input == old(de)@,
                input.len() >= 1,
                count == input[0],
                rest == input.skip(1),
                i <= count,
                parse_seq::<T>(rest, i as nat) == Ok::<(Seq<T::V>, nat), Error>((out.deep_view(), used)),
                used <= rest.len(),
                de@ == rest.skip(used as int),
            decreases count - i,
        {
            proof {
                lemma_parse_seq_snoc::<T>(rest, i as nat);
                T::lemma_parse_len(de@);
            }
            let ghost before = de@;
            let x = match T::decode(de) {
                Ok(x) => x,
                Err(e) => {
                    proof {
                        assert(T::parse(before) == Err::<(T::V, nat), Error>(e));
                        assert(parse_seq::<T>(rest, (i + 1) as nat) == Err::<(Seq<T::V>, nat), Error>(e));
                        lemma_parse_seq_err::<T>(rest, (i + 1) as nat, count as nat);
                        assert(parse_seq::<T>(rest, count as nat) == Err::<(Seq<T::V>, nat), Error>(e));
                        assert(<Vec<T> as Decode>::parse(input) == Err::<(Seq<T::V>, nat), Error>(e));
                    }
                    return Err(e);
                },
            };
            proof {
                let n = T::parse(before)->Ok_0.1;
                assert(rest.skip(used as int).skip(n as int) =~= rest.skip((used + n) as int));
                used = used + n;
            }
            let ghost prev = out.deep_view();
            out.push(x);
            assert(out.deep_view() =~= prev.push(x.deep_view()));
            i = i + 1;
        }
        assert(input.skip(1).skip(used as int) =~= input.skip((used + 1) as int));
        Ok(out)
    }
}

/// What reading a value of `B` right after a value of `A` gives.
pub open spec fn parse_pair<A: Decode, B: Decode>(input: Seq<u8>) -> Result<((A::V, B::V), nat)> {
    match A::parse(input) {
        Ok((a, n)) => match B::parse(input.skip(n as int)) {
            Ok((b, m)) => Ok(((a, b), n + m)),
            Err(e) => Err(e),
        },
        Err(e) => Err(e),
    }
}

proof fn lemma_parse_pair_len<A: Decode, B: Decode>(input: Seq<u8>)
    ensures
        parse_pair::<A, B>(input) matches Ok((v, n)) ==> n <= input.len(),
{
    A::lemma_parse_len(input);
    if let Ok((a, n)) = A::parse(input) {
        B::lemma_parse_len(input.skip(n as int));
    }
}

fn decode_pair<'de, A: Decode, B: Decode>(de: &mut Deserializer<'de>) -> (r: Result<(A, B)>)
    ensures
        match parse_pair::<A, B>(old(de)@) {
            Ok((v, n)) => r is Ok && r->Ok_0.0.deep_view() == v.0 && r->Ok_0.1.deep_view() == v.1
                && final(de)@ == old(de)@.skip(n as int),
            Err(e) => r == Err::<(A, B), Error>(e),
        },
{
    let ghost input = de@;
    proof {
        A::lemma_parse_len(input);
    }
    let a = A::decode(de)?;
    let ghost mid = de@;
    proof {
        B::lemma_parse_len(mid);
    }
    let b = B::decode(de)?;
    proof {
        let n = A::parse(input)->Ok_0.1;
        let m = B::parse(mid)->Ok_0.1;
        assert(input.skip(n as int).skip(m as int) =~= input.skip((n + m) as int));
    }
    Ok((a, b))
}

impl<A: Decode, B: Decode> Decode for (A, B) {
    open spec fn parse(input: Seq<u8>) -> Result<((A::V, B::V), nat)> {
        parse_pair::<A, B>(input)
    }

    proof fn lemma_parse_len(input: Seq<u8>) {
        lemma_parse_pair_len::<A, B>(input);
    }

    fn decode<'de>(de: &mut Deserializer<'de>) -> (r: Result<(A, B)>) {
        decode_pair::<A, B>(de)
    }
}

impl<A: Decode, B: Decode, C: Decode> Decode for (A, B, C) {
    /// The same bytes as the pair `(A, (B, C))`.
    open spec fn parse(input: Seq<u8>) -> Result<((A::V, B::V, C::V), nat)> {
        match parse_pair::<A, (B, C)>(input) {
            Ok(((a, (b, c)), n)) => Ok(((a, b, c), n)),
            Err(e) => Err(e),
        }
    }

    proof fn lemma_parse_len(input: Seq<u8>) {
        lemma_parse_pair_len::<A, (B, C)>(input);
    }

    fn decode<'de>(de: &mut Deserializer<'de>) -> (r: Result<(A, B, C)>) {
        let (a, (b, c)) = decode_pair::<A, (B, C)>(de)?;
        Ok((a, b, c))
    }
}

impl<A: Decode, B: Decode, C: Decode, D: Decode> Decode for (A, B, C, D) {
    /// The same bytes as the pair `(A, (B, C, D))`.
    open spec fn parse(input: Seq<u8>) -> Result<((A::V, B::V, C::V, D::V), nat)> {
        match parse_pair::<A, (B, C, D)>(input) {
            Ok(((a, (b, c, d)), n)) => Ok(((a, b, c, d), n)),
            Err(e) => Err(e),
        }
    }

    proof fn lemma_parse_len(input: Seq<u8>) {
        lemma_parse_pair_len::<A, (B, C, D)>(input);
    }

    fn decode<'de>(de: &mut Deserializer<'de>) -> (r: Result<(A, B, C, D)>) {
        let (a, (b, c, d)) = decode_pair::<A, (B, C, D)>(de)?;
        Ok((a, b, c, d))
    }
}

} // verus!
