//! Sequential binary reader over a byte buffer, decoding fixed-layout values
//! at arbitrary (unaligned) offsets, plus the layout trait the reader is
//! generic over.

use vstd::prelude::*;
use vstd::slice::slice_subrange;
use vstd::bytes::*;

verus! {

/// A value with a fixed byte layout: it occupies exactly `spec_size` bytes,
/// and encoding then decoding returns the value unchanged.
pub trait FixedLayout: Sized {
    /// How many bytes a value of this type occupies in a buffer.
    spec fn spec_size() -> nat;

    /// The value laid down in the given bytes.
    spec fn spec_decode(bytes: Seq<u8>) -> Self;

    /// The bytes this value lays down.
    spec fn spec_encode(self) -> Seq<u8>;

    /// An encoded value occupies exactly `spec_size` bytes.
    proof fn lemma_encode_len(v: Self)
        ensures
            v.spec_encode().len() == Self::spec_size(),
    ;

    /// Decoding an encoded value returns it unchanged.
    proof fn lemma_round_trip(v: Self)
        ensures
            Self::spec_decode(v.spec_encode()) == v,
    ;

    fn size() -> (n: usize)
        ensures
            n == Self::spec_size(),
    ;

    fn decode(bytes: &[u8]) -> (v: Self)
        requires
            bytes@.len() == Self::spec_size(),
        ensures
            v == Self::spec_decode(bytes@),
    ;

    fn encode(self) -> (out: Vec<u8>)
        ensures
            out@ == self.spec_encode(),
    ;
}

impl FixedLayout for u8 {
    open spec fn spec_size() -> nat {
        1
    }

    open spec fn spec_decode(bytes: Seq<u8>) -> u8 {
        bytes[0]
    }

    open spec fn spec_encode(self) -> Seq<u8> {
        seq![self]
    }

    proof fn lemma_encode_len(v: u8) {
    }

    proof fn lemma_round_trip(v: u8) {
    }

    fn size() -> usize {
        1
    }

    fn decode(bytes: &[u8]) -> (v: u8)
    {
        *vstd::slice::slice_index_get(bytes, 0)
    }

    fn encode(self) -> (out: Vec<u8>)
    {
        let mut out: Vec<u8> = Vec::new();
        out.push(self);
        proof {
            assert(out@ =~= seq![self]);
        }
        out
    }
}

impl FixedLayout for u16 {
    open spec fn spec_size() -> nat {
        2
    }

    open spec fn spec_decode(bytes: Seq<u8>) -> u16 {
        spec_u16_from_le_bytes(bytes)
    }

    open spec fn spec_encode(self) -> Seq<u8> {
        spec_u16_to_le_bytes(self)
    }

    proof fn lemma_encode_len(v: u16) {
        lemma_auto_spec_u16_to_from_le_bytes();
        assert(spec_u16_to_le_bytes(v).len() == 2);
    }

    proof fn lemma_round_trip(v: u16) {
        lemma_auto_spec_u16_to_from_le_bytes();
        assert(spec_u16_to_le_bytes(v).len() == 2);
    }

    fn size() -> usize {
        2
    }

    fn decode(bytes: &[u8]) -> (v: u16)
    {
        u16_from_le_bytes(bytes)
    }

    fn encode(self) -> (out: Vec<u8>)
    {
        u16_to_le_bytes(self)
    }
}

impl FixedLayout for u32 {
    open spec fn spec_size() -> nat {
        4
    }

    open spec fn spec_decode(bytes: Seq<u8>) -> u32 {
        spec_u32_from_le_bytes(bytes)
    }

    open spec fn spec_encode(self) -> Seq<u8> {
        spec_u32_to_le_bytes(self)
    }

    proof fn lemma_encode_len(v: u32) {
        lemma_auto_spec_u32_to_from_le_bytes();
        assert(spec_u32_to_le_bytes(v).len() == 4);
    }

    proof fn lemma_round_trip(v: u32) {
        lemma_auto_spec_u32_to_from_le_bytes();
        assert(spec_u32_to_le_bytes(v).len() == 4);
    }

    fn size() -> usize {
        4
    }

    fn decode(bytes: &[u8]) -> (v: u32)
    {
        u32_from_le_bytes(bytes)
    }

    fn encode(self) -> (out: Vec<u8>)
    {
        u32_to_le_bytes(self)
    }
}

impl FixedLayout for u64 {
    open spec fn spec_size() -> nat {
        8
    }

    open spec fn spec_decode(bytes: Seq<u8>) -> u64 {
        spec_u64_from_le_bytes(bytes)
    }

    open spec fn spec_encode(self) -> Seq<u8> {
        spec_u64_to_le_bytes(self)
    }

    proof fn lemma_encode_len(v: u64) {
        lemma_auto_spec_u64_to_from_le_bytes();
        assert(spec_u64_to_le_bytes(v).len() == 8);
    }

    proof fn lemma_round_trip(v: u64) {
        lemma_auto_spec_u64_to_from_le_bytes();
        assert(spec_u64_to_le_bytes(v).len() == 8);
    }

    fn size() -> usize {
        8
    }

    fn decode(bytes: &[u8]) -> (v: u64)
    {
        u64_from_le_bytes(bytes)
    }

    fn encode(self) -> (out: Vec<u8>)
    {
        u64_to_le_bytes(self)
    }
}

impl FixedLayout for i32 {
    open spec fn spec_size() -> nat {
        4
    }

    open spec fn spec_decode(bytes: Seq<u8>) -> i32 {
        spec_u32_from_le_bytes(bytes) as i32
    }

    open spec fn spec_encode(self) -> Seq<u8> {
        spec_u32_to_le_bytes(self as u32)
    }

    proof fn lemma_encode_len(v: i32) {
        lemma_auto_spec_u32_to_from_le_bytes();
        assert(spec_u32_to_le_bytes(v as u32).len() == 4);
    }

    proof fn lemma_round_trip(v: i32) {
        lemma_auto_spec_u32_to_from_le_bytes();
        assert(spec_u32_to_le_bytes(v as u32).len() == 4);
        assert(spec_u32_from_le_bytes(spec_u32_to_le_bytes(v as u32)) == v as u32);
        assert((v as u32) as i32 == v) by (bit_vector);
    }

    fn size() -> usize {
        4
    }

    fn decode(bytes: &[u8]) -> (v: i32)
    {
        let u: u32 = u32_from_le_bytes(bytes);
        #[verifier::truncate] (u as i32)
    }

    fn encode(self) -> (out: Vec<u8>)
    {
        u32_to_le_bytes(#[verifier::truncate] (self as u32))
    }
}

impl FixedLayout for i64 {
    open spec fn spec_size() -> nat {
        8
    }

    open spec fn spec_decode(bytes: Seq<u8>) -> i64 {
        spec_u64_from_le_bytes(bytes) as i64
    }

    open spec fn spec_encode(self) -> Seq<u8> {
        spec_u64_to_le_bytes(self as u64)
    }

    proof fn lemma_encode_len(v: i64) {
        lemma_auto_spec_u64_to_from_le_bytes();
        assert(spec_u64_to_le_bytes(v as u64).len() == 8);
    }

    proof fn lemma_round_trip(v: i64) {
        lemma_auto_spec_u64_to_from_le_bytes();
        assert(spec_u64_to_le_bytes(v as u64).len() == 8);
        assert(spec_u64_from_le_bytes(spec_u64_to_le_bytes(v as u64)) == v as u64);
        assert((v as u64) as i64 == v) by (bit_vector);
    }

    fn size() -> usize {
        8
    }

    fn decode(bytes: &[u8]) -> (v: i64)
    {
        let u: u64 = u64_from_le_bytes(bytes);
        #[verifier::truncate] (u as i64)
    }

    fn encode(self) -> (out: Vec<u8>)
    {
        u64_to_le_bytes(#[verifier::truncate] (self as u64))
    }
}

/// A cursor into an immutable byte buffer; each read advances the cursor by
/// the size of the value read.
pub struct SerializationReader<'a> {
    pub index: usize,
    pub data: &'a [u8],
}

impl<'a> SerializationReader<'a> {
    pub fn new(data: &'a [u8]) -> (r: SerializationReader<'a>)
        ensures
            r.index == 0,
            r.data@ == data@,
    {
        SerializationReader { index: 0, data }
    }

    /// Checked read: decodes the next value when enough bytes remain, and
    /// returns no value (leaving the cursor in place) when they do not.
    /// Never reads out of bounds.
    pub fn read<T: FixedLayout>(&mut self) -> (r: Option<T>)
        ensures
            final(self).data@ == old(self).data@,
            old(self).index + T::spec_size() > old(self).data@.len() ==> {
                &&& r is None
                &&& final(self).index == old(self).index
            },
            old(self).index + T::spec_size() <= old(self).data@.len() ==> {
                &&& r == Some(
                    T::spec_decode(
                        old(self).data@.subrange(
                            old(self).index as int,
                            old(self).index + T::spec_size(),
                        ),
                    ),
                )
                &&& final(self).index == old(self).index + T::spec_size()
            },
    {
        let size: usize = T::size();
        if self.index > self.data.len() || size > self.data.len() - self.index {
            return None;
        }

        let bytes = slice_subrange(self.data, self.index, self.index + size);
        self.index = self.index + size;
        Some(T::decode(bytes))
    }

    /// Unchecked read: the caller must have established that enough bytes
    /// remain; the cursor advances by the size of the value read.
    pub fn read_unchecked<T: FixedLayout>(&mut self) -> (r: T)
        requires
            old(self).index + T::spec_size() <= old(self).data@.len(),
        ensures
            final(self).data@ == old(self).data@,
            final(self).index == old(self).index + T::spec_size(),
            r == T::spec_decode(
                old(self).data@.subrange(old(self).index as int, old(self).index + T::spec_size()),
            ),
    {
        let size: usize = T::size();
        let _len: usize = self.data.len();
        let bytes = slice_subrange(self.data, self.index, self.index + size);
        self.index = self.index + size;
        T::decode(bytes)
    }
}

/// Law: for every fixed-layout type, a value encoded at the front of a buffer
/// and decoded back from the same offset is returned unchanged, whatever
/// bytes follow it.
pub proof fn lemma_reader_round_trip<T: FixedLayout>(v: T, tail: Seq<u8>)
    ensures
        v.spec_encode().len() == T::spec_size(),
        T::spec_decode((v.spec_encode() + tail).subrange(0, T::spec_size() as int)) == v,
{
    T::lemma_encode_len(v);
    T::lemma_round_trip(v);
    assert((v.spec_encode() + tail).subrange(0, T::spec_size() as int) =~= v.spec_encode());
}

} // verus!
