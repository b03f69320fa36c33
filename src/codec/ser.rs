//! Encoding: values into fixed-layout little-endian bytes, the inverse of decoding.
use vstd::bytes::*;
use vstd::prelude::*;
use vstd::string::StringSliceAdditionalSpecFns;
use vstd::utf8::*;

use super::de::{parse_exact, parse_pair, parse_seq, prefixed_bytes, Decode};
use super::error::{Error, Result};
use crate::record::{ClMessage, CLMSG_CAP};

verus! {

/// A growing buffer of encoded bytes.
pub struct Serializer {
    output: Vec<u8>,
}

impl View for Serializer {
    type V = Seq<u8>;

    /// The bytes written so far.
    closed spec fn view(&self) -> Seq<u8> {
        self.output@
    }
}

impl Serializer {
    /// An empty buffer.
    pub fn new() -> (r: Serializer)
        ensures
            r@ == Seq::<u8>::empty(),
    {
        Serializer { output: Vec::new() }
    }

    /// The bytes written.
    pub fn into_bytes(self) -> (r: Vec<u8>)
        ensures
            r@ == self@,
    {
        self.output
    }

    /// Writes one byte.
    pub fn put_u8(&mut self, b: u8)
        ensures
            final(self)@ == old(self)@.push(b),
    {
        self.output.push(b);
    }

    /// Writes a run of bytes as they are.
    pub fn put_slice(&mut self, b: &[u8])
        ensures
            final(self)@ == old(self)@ + b@,
    {
        let ghost start = self@;
        let mut i: usize = 0;
        while i < b.len()
            invariant
                i <= b@.len(),
                self@ == start + b@.take(i as int),
            decreases b@.len() - i,
        {
            self.output.push(b[i]);
            i = i + 1;
            assert(self@ =~= start + b@.take(i as int));
        }
        assert(b@.take(b@.len() as int) =~= b@);
    }

    /// Writes a `u16`, least significant byte first.
    pub fn put_u16(&mut self, v: u16)
        ensures
            final(self)@ == old(self)@ + spec_u16_to_le_bytes(v),
    {
        self.put_vec(u16_to_le_bytes(v));
    }

    /// Writes a `u32`, least significant byte first.
    pub fn put_u32(&mut self, v: u32)
        ensures
            final(self)@ == old(self)@ + spec_u32_to_le_bytes(v),
    {
        self.put_vec(u32_to_le_bytes(v));
    }

    /// Writes a `u64`, least significant byte first.
    pub fn put_u64(&mut self, v: u64)
        ensures
            final(self)@ == old(self)@ + spec_u64_to_le_bytes(v),
    {
        self.put_vec(u64_to_le_bytes(v));
    }

    /// Writes a `u128`, least significant byte first.
    pub fn put_u128(&mut self, v: u128)
        ensures
            final(self)@ == old(self)@ + spec_u128_to_le_bytes(v),
    {
        self.put_vec(u128_to_le_bytes(v));
    }

    fn put_vec(&mut self, mut b: Vec<u8>)
        ensures
            final(self)@ == old(self)@ + b@,
    {
        self.output.append(&mut b);
    }
}

/// A value that can be written in the layout that [`Decode`] reads.
pub trait Encode: Decode {
    /// Whether the value can be written: every count it holds fits one byte.
    spec fn fits(v: Self::V) -> bool;

    /// The bytes that stand for the value.
    spec fn wire(v: Self::V) -> Seq<u8>;

    /// Reading back what was written gives the value and takes exactly its
    /// bytes, whatever follows them.
    proof fn lemma_round_trip(v: Self::V, rest: Seq<u8>)
        requires
            Self::fits(v),
        ensures
            Self::parse(Self::wire(v) + rest) == Ok::<(Self::V, nat), Error>((v, Self::wire(v).len())),
    ;

    /// Appends the value's bytes; fails, writing nothing that matters, when
    /// the value does not fit.
    fn encode(&self, ser: &mut Serializer) -> (r: Result<()>)
        ensures
            Self::fits(self.deep_view()) ==> r is Ok && final(ser)@ == old(ser)@ + Self::wire(
                self.deep_view(),
            ),
            !Self::fits(self.deep_view()) ==> r is Err,
    ;
}

/// Encodes a value into a new byte vector.
pub fn to_bytes<T: Encode>(v: &T) -> (r: Result<Vec<u8>>)
    ensures
        T::fits(v.deep_view()) ==> r is Ok && r->Ok_0@ == T::wire(v.deep_view()),
        !T::fits(v.deep_view()) ==> r is Err,
{
    let mut ser = Serializer::new();
    v.encode(&mut ser)?;
    assert(ser@ =~= T::wire(v.deep_view())) by {
        if T::fits(v.deep_view()) {
            assert(Seq::<u8>::empty() + T::wire(v.deep_view()) =~= T::wire(v.deep_view()));
        }
    }
    Ok(ser.into_bytes())
}

/// Decoding the bytes that encode a value gives the value back, and takes
/// all of them.
pub proof fn lemma_codec_round_trip<T: Encode>(v: T::V)
    requires
        T::fits(v),
    ensures
        parse_exact::<T>(T::wire(v)) == Ok::<T::V, Error>(v),
{
    T::lemma_round_trip(v, Seq::empty());
    assert(T::wire(v) + Seq::<u8>::empty() =~= T::wire(v));
}

/// Encodes a value into a message envelope; fails with `NoBufs` when the
/// bytes do not fit its 62-byte payload.
pub fn to_msg<T: Encode>(v: &T) -> (r: Result<ClMessage>)
    ensures
        T::fits(v.deep_view()) && T::wire(v.deep_view()).len() <= CLMSG_CAP ==> r is Ok
            && r->Ok_0@ == T::wire(v.deep_view()),
        T::fits(v.deep_view()) && T::wire(v.deep_view()).len() > CLMSG_CAP ==> r
            == Err::<ClMessage, Error>(Error::NoBufs),
        !T::fits(v.deep_view()) ==> r is Err,
{
    let b = to_bytes(v)?;
    if b.len() > CLMSG_CAP {
        return Err(Error::NoBufs);
    }
    let m = ClMessage::new(b.as_slice());
    assert(b@.take(b@.len() as int) =~= b@);
    Ok(m)
}

impl Encode for u8 {
    open spec fn fits(v: u8) -> bool {
        true
    }

    open spec fn wire(v: u8) -> Seq<u8> {
        seq![v]
    }

    proof fn lemma_round_trip(v: u8, rest: Seq<u8>) {
    }

    fn encode(&self, ser: &mut Serializer) -> (r: Result<()>) {
        ser.put_u8(*self);
        assert(ser@ =~= old(ser)@ + seq![*self]);
        Ok(())
    }
}

impl Encode for i8 {
    open spec fn fits(v: i8) -> bool {
        true
    }

    open spec fn wire(v: i8) -> Seq<u8> {
        seq![v as u8]
    }

    proof fn lemma_round_trip(v: i8, rest: Seq<u8>) {
        assert((v as u8) as i8 == v) by (bit_vector);
    }

    fn encode(&self, ser: &mut Serializer) -> (r: Result<()>) {
        ser.put_u8(*self as u8);
        assert(ser@ =~= old(ser)@ + seq![*self as u8]);
        Ok(())
    }
}

impl Encode for bool {
    open spec fn fits(v: bool) -> bool {
        true
    }

    open spec fn wire(v: bool) -> Seq<u8> {
        seq![if v { 1u8 } else { 0u8 }]
    }

    proof fn lemma_round_trip(v: bool, rest: Seq<u8>) {
    }

    fn encode(&self, ser: &mut Serializer) -> (r: Result<()>) {
        let b: u8 = if *self { 1 } else { 0 };
        ser.put_u8(b);
        assert(ser@ =~= old(ser)@ + seq![b]);
        Ok(())
    }
}

impl Encode for u16 {
    open spec fn fits(v: u16) -> bool {
        true
    }

    open spec fn wire(v: u16) -> Seq<u8> {
        spec_u16_to_le_bytes(v)
    }

    proof fn lemma_round_trip(v: u16, rest: Seq<u8>) {
        lemma_auto_spec_u16_to_from_le_bytes();
        assert((spec_u16_to_le_bytes(v) + rest).take(2) =~= spec_u16_to_le_bytes(v));
    }

    fn encode(&self, ser: &mut Serializer) -> (r: Result<()>) {
        ser.put_vec(u16_to_le_bytes(*self));
        Ok(())
    }
}

impl Encode for i16 {
    open spec fn fits(v: i16) -> bool {
        true
    }

    open spec fn wire(v: i16) -> Seq<u8> {
        spec_u16_to_le_bytes(v as u16)
    }

    proof fn lemma_round_trip(v: i16, rest: Seq<u8>) {
        lemma_auto_spec_u16_to_from_le_bytes();
        assert((spec_u16_to_le_bytes(v as u16) + rest).take(2) =~= spec_u16_to_le_bytes(v as u16));
        assert((v as u16) as i16 == v) by (bit_vector);
    }

    fn encode(&self, ser: &mut Serializer) -> (r: Result<()>) {
        ser.put_vec(u16_to_le_bytes(*self as u16));
        Ok(())
    }
}

impl Encode for u32 {
    open spec fn fits(v: u32) -> bool {
        true
    }

    open spec fn wire(v: u32) -> Seq<u8> {
        spec_u32_to_le_bytes(v)
    }

    proof fn lemma_round_trip(v: u32, rest: Seq<u8>) {
        lemma_auto_spec_u32_to_from_le_bytes();
        assert((spec_u32_to_le_bytes(v) + rest).take(4) =~= spec_u32_to_le_bytes(v));
    }

    fn encode(&self, ser: &mut Serializer) -> (r: Result<()>) {
        ser.put_vec(u32_to_le_bytes(*self));
        Ok(())
    }
}

impl Encode for i32 {
    open spec fn fits(v: i32) -> bool {
        true
    }

    open spec fn wire(v: i32) -> Seq<u8> {
        spec_u32_to_le_bytes(v as u32)
    }

    proof fn lemma_round_trip(v: i32, rest: Seq<u8>) {
        lemma_auto_spec_u32_to_from_le_bytes();
        assert((spec_u32_to_le_bytes(v as u32) + rest).take(4) =~= spec_u32_to_le_bytes(v as u32));
        assert((v as u32) as i32 == v) by (bit_vector);
    }

    fn encode(&self, ser: &mut Serializer) -> (r: Result<()>) {
        ser.put_vec(u32_to_le_bytes(*self as u32));
        Ok(())
    }
}

impl Encode for u64 {
    open spec fn fits(v: u64) -> bool {
        true
    }

    open spec fn wire(v: u64) -> Seq<u8> {
        spec_u64_to_le_bytes(v)
    }

    proof fn lemma_round_trip(v: u64, rest: Seq<u8>) {
        lemma_auto_spec_u64_to_from_le_bytes();
        assert((spec_u64_to_le_bytes(v) + rest).take(8) =~= spec_u64_to_le_bytes(v));
    }

    fn encode(&self, ser: &mut Serializer) -> (r: Result<()>) {
        ser.put_vec(u64_to_le_bytes(*self));
        Ok(())
    }
}

impl Encode for i64 {
    open spec fn fits(v: i64) -> bool {
        true
    }

    open spec fn wire(v: i64) -> Seq<u8> {
        spec_u64_to_le_bytes(v as u64)
    }

    proof fn lemma_round_trip(v: i64, rest: Seq<u8>) {
        lemma_auto_spec_u64_to_from_le_bytes();
        assert((spec_u64_to_le_bytes(v as u64) + rest).take(8) =~= spec_u64_to_le_bytes(v as u64));
        assert((v as u64) as i64 == v) by (bit_vector);
    }

    fn encode(&self, ser: &mut Serializer) -> (r: Result<()>) {
        ser.put_vec(u64_to_le_bytes(*self as u64));
        Ok(())
    }
}

impl Encode for u128 {
    open spec fn fits(v: u128) -> bool {
        true
    }

    open spec fn wire(v: u128) -> Seq<u8> {
        spec_u128_to_le_bytes(v)
    }

    proof fn lemma_round_trip(v: u128, rest: Seq<u8>) {
        lemma_auto_spec_u128_to_from_le_bytes();
        assert((spec_u128_to_le_bytes(v) + rest).take(16) =~= spec_u128_to_le_bytes(v));
    }

    fn encode(&self, ser: &mut Serializer) -> (r: Result<()>) {
        ser.put_vec(u128_to_le_bytes(*self));
        Ok(())
    }
}

impl Encode for i128 {
    open spec fn fits(v: i128) -> bool {
        true
    }

    open spec fn wire(v: i128) -> Seq<u8> {
        spec_u128_to_le_bytes(v as u128)
    }

    proof fn lemma_round_trip(v: i128, rest: Seq<u8>) {
        lemma_auto_spec_u128_to_from_le_bytes();
        assert((spec_u128_to_le_bytes(v as u128) + rest).take(16) =~= spec_u128_to_le_bytes(
            v as u128,
        ));
        assert((v as u128) as i128 == v) by (bit_vector);
    }

    fn encode(&self, ser: &mut Serializer) -> (r: Result<()>) {
        ser.put_vec(u128_to_le_bytes(*self as u128));
        Ok(())
    }
}

impl Encode for String {
    /// At most 255 bytes of UTF-8.
    open spec fn fits(v: Seq<char>) -> bool {
        encode_utf8(v).len() <= 255
    }

    open spec fn wire(v: Seq<char>) -> Seq<u8> {
        seq![encode_utf8(v).len() as u8] + encode_utf8(v)
    }

    proof fn lemma_round_trip(v: Seq<char>, rest: Seq<u8>) {
        let b = encode_utf8(v);
        let input = Self::wire(v) + rest;
        assert(input.subrange(1, 1 + b.len() as int) =~= b);
        encode_utf8_valid_utf8(v);
        encode_utf8_decode_utf8(v);
        assert(prefixed_bytes(input) == Ok::<(Seq<u8>, nat), Error>((b, 1 + b.len())));
    }

    fn encode(&self, ser: &mut Serializer) -> (r: Result<()>) {
        let b = self.as_str().as_bytes();
        if b.len() > 255 {
            return Err(Error::Message("string longer than 255 bytes".to_owned()));
        }
        ser.put_u8(b.len() as u8);
        ser.put_slice(b);
        assert(ser@ =~= old(ser)@ + Self::wire(self@));
        Ok(())
    }
}

/// The bytes of a run of values, one after another.
pub open spec fn wire_seq<T: Encode>(vs: Seq<T::V>) -> Seq<u8>
    decreases vs.len(),
{
    if vs.len() == 0 {
        Seq::empty()
    } else {
        T::wire(vs[0]) + wire_seq::<T>(vs.drop_first())
    }
}

proof fn lemma_wire_seq_push<T: Encode>(vs: Seq<T::V>, v: T::V)
    ensures
        wire_seq::<T>(vs.push(v)) == wire_seq::<T>(vs) + T::wire(v),
    decreases vs.len(),
{
    if vs.len() == 0 {
        assert(vs.push(v).drop_first() =~= Seq::<T::V>::empty());
        assert(vs.push(v)[0] == v);
        assert(wire_seq::<T>(Seq::<T::V>::empty()) == Seq::<u8>::empty());
        assert(wire_seq::<T>(vs.push(v)) == T::wire(v) + Seq::<u8>::empty());
        assert(wire_seq::<T>(vs.push(v)) =~= T::wire(v));
        assert(wire_seq::<T>(vs) == Seq::<u8>::empty());
    } else {
        assert(vs.push(v).drop_first() =~= vs.drop_first().push(v));
        lemma_wire_seq_push::<T>(vs.drop_first(), v);
        assert(wire_seq::<T>(vs.push(v)) =~= wire_seq::<T>(vs) + T::wire(v));
    }
}

proof fn lemma_wire_seq_round_trip<T: Encode>(vs: Seq<T::V>, rest: Seq<u8>)
    requires
        forall|i: int| 0 <= i < vs.len() ==> T::fits(#[trigger] vs[i]),
    ensures
        parse_seq::<T>(wire_seq::<T>(vs) + rest, vs.len()) == Ok::<(Seq<T::V>, nat), Error>(
            (vs, wire_seq::<T>(vs).len()),
        ),
    decreases vs.len(),
{
    if vs.len() > 0 {
        let tail = vs.drop_first();
        let input = wire_seq::<T>(vs) + rest;
        assert(T::fits(vs[0]));
        assert(input =~= T::wire(vs[0]) + (wire_seq::<T>(tail) + rest));
        T::lemma_round_trip(vs[0], wire_seq::<T>(tail) + rest);
        assert(input.skip(T::wire(vs[0]).len() as int) =~= wire_seq::<T>(tail) + rest);
        assert forall|i: int| 0 <= i < tail.len() implies T::fits(#[trigger] tail[i]) by {
            assert(tail[i] == vs[i + 1]);
        }
        lemma_wire_seq_round_trip::<T>(tail, rest);
        assert(seq![vs[0]] + tail =~= vs);
        assert(tail.len() == (vs.len() - 1) as nat);
        assert(wire_seq::<T>(vs) == T::wire(vs[0]) + wire_seq::<T>(tail));
        assert(parse_seq::<T>(input, vs.len()) == Ok::<(Seq<T::V>, nat), Error>(
            (seq![vs[0]] + tail, T::wire(vs[0]).len() + wire_seq::<T>(tail).len()),
        ));
    } else {
        assert(vs =~= Seq::<T::V>::empty());
    }
}

impl<T: Encode> Encode for Vec<T> {
    /// At most 255 values, each of which fits.
    open spec fn fits(v: Seq<T::V>) -> bool {
        &&& v.len() <= 255
        &&& forall|i: int| 0 <= i < v.len() ==> T::fits(#[trigger] v[i])
    }

    open spec fn wire(v: Seq<T::V>) -> Seq<u8> {
        seq![v.len() as u8] + wire_seq::<T>(v)
    }

    proof fn lemma_round_trip(v: Seq<T::V>, rest: Seq<u8>) {
        let input = Self::wire(v) + rest;
        lemma_wire_seq_round_trip::<T>(v, rest);
        assert(input.skip(1) =~= wire_seq::<T>(v) + rest);
    }

    fn encode(&self, ser: &mut Serializer) -> (r: Result<()>) {
        if self.len() > 255 {
            return Err(Error::Message("sequence longer than 255 elements".to_owned()));
        }
        let ghost start = ser@;
        ser.put_u8(self.len() as u8);
        let mut i: usize = 0;
        while i < self.len()
            invariant
                i <= self@.len(),
                self@.len() <= 255,
                ser@ == start + seq![self@.len() as u8] + wire_seq::<T>(
                    self.deep_view().take(i as int),
                ),
                forall|j: int| 0 <= j < i ==> T::fits(#[trigger] self.deep_view()[j]),
            decreases self@.len() - i,
        {
            let ghost before = ser@;
            let item = &self[i];
            match item.encode(ser) {
                Ok(()) => {},
                Err(e) => {
                    assert(!T::fits(self.deep_view()[i as int]));
                    return Err(e);
                },
            }
            proof {
                lemma_wire_seq_push::<T>(self.deep_view().take(i as int), item.deep_view());
                assert(self.deep_view().take(i + 1) =~= self.deep_view().take(i as int).push(
                    item.deep_view(),
                ));
            }
            i = i + 1;
        }
        assert(self.deep_view().take(self@.len() as int) =~= self.deep_view());
        assert(ser@ =~= old(ser)@ + Self::wire(self.deep_view()));
        Ok(())
    }
}

impl<A: Encode, B: Encode> Encode for (A, B) {
    open spec fn fits(v: (A::V, B::V)) -> bool {
        A::fits(v.0) && B::fits(v.1)
    }

    open spec fn wire(v: (A::V, B::V)) -> Seq<u8> {
        A::wire(v.0) + B::wire(v.1)
    }

    proof fn lemma_round_trip(v: (A::V, B::V), rest: Seq<u8>) {
        let input = Self::wire(v) + rest;
        assert(input =~= A::wire(v.0) + (B::wire(v.1) + rest));
        A::lemma_round_trip(v.0, B::wire(v.1) + rest);
        assert(input.skip(A::wire(v.0).len() as int) =~= B::wire(v.1) + rest);
        B::lemma_round_trip(v.1, rest);
        assert(parse_pair::<A, B>(input) == Ok::<((A::V, B::V), nat), Error>(
            (v, Self::wire(v).len()),
        ));
    }

    fn encode(&self, ser: &mut Serializer) -> (r: Result<()>) {
        self.0.encode(ser)?;
        self.1.encode(ser)?;
        assert(ser@ =~= old(ser)@ + Self::wire(self.deep_view()));
        Ok(())
    }
}

impl<A: Encode, B: Encode, C: Encode> Encode for (A, B, C) {
    open spec fn fits(v: (A::V, B::V, C::V)) -> bool {
        A::fits(v.0) && B::fits(v.1) && C::fits(v.2)
    }

    open spec fn wire(v: (A::V, B::V, C::V)) -> Seq<u8> {
        A::wire(v.0) + (B::wire(v.1) + C::wire(v.2))
    }

    proof fn lemma_round_trip(v: (A::V, B::V, C::V), rest: Seq<u8>) {
        <(A, (B, C)) as Encode>::lemma_round_trip((v.0, (v.1, v.2)), rest);
    }

    fn encode(&self, ser: &mut Serializer) -> (r: Result<()>) {
        self.0.encode(ser)?;
        self.1.encode(ser)?;
        self.2.encode(ser)?;
        assert(ser@ =~= old(ser)@ + Self::wire(self.deep_view()));
        Ok(())
    }
}

impl<A: Encode, B: Encode, C: Encode, D: Encode> Encode for (A, B, C, D) {
    open spec fn fits(v: (A::V, B::V, C::V, D::V)) -> bool {
        A::fits(v.0) && B::fits(v.1) && C::fits(v.2) && D::fits(v.3)
    }

    open spec fn wire(v: (A::V, B::V, C::V, D::V)) -> Seq<u8> {
        A::wire(v.0) + (B::wire(v.1) + (C::wire(v.2) + D::wire(v.3)))
    }

    proof fn lemma_round_trip(v: (A::V, B::V, C::V, D::V), rest: Seq<u8>) {
        <(A, (B, C, D)) as Encode>::lemma_round_trip((v.0, (v.1, v.2, v.3)), rest);
    }

    fn encode(&self, ser: &mut Serializer) -> (r: Result<()>) {
        self.0.encode(ser)?;
        self.1.encode(ser)?;
        self.2.encode(ser)?;
        self.3.encode(ser)?;
        assert(ser@ =~= old(ser)@ + Self::wire(self.deep_view()));
        Ok(())
    }
}

} // verus!
