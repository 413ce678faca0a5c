//! Byte-level building blocks: big-endian integers and length-prefixed
//! strings, with the outside encoders and decoders they rely on.
use vstd::prelude::*;
use bytebuffer::ByteBuffer;
use byteorder::ByteOrder;
use vstd::string::StringSliceAdditionalSpecFns;

verus! {

/// The `k` low-order bytes of `v`, most significant first (two's complement
/// for negative values).
pub open spec fn be_bytes(v: int, k: nat) -> Seq<u8>
    decreases k,
{
    if k == 0 {
        Seq::empty()
    } else {
        be_bytes(v / 256, (k - 1) as nat).push((v % 256) as u8)
    }
}

/// `be_bytes` yields exactly `k` bytes.
pub proof fn lemma_be_bytes_len(v: int, k: nat)
    ensures
        be_bytes(v, k).len() == k,
    decreases k,
{
    if k > 0 {
        lemma_be_bytes_len(v / 256, (k - 1) as nat);
    }
}

/// The unsigned value of a big-endian byte sequence.
pub open spec fn be_value(s: Seq<u8>) -> nat
    decreases s.len(),
{
    if s.len() == 0 {
        0
    } else {
        (be_value(s.drop_last()) * 256 + s.last()) as nat
    }
}

/// Two's-complement reading of a 32-bit unsigned value.
pub open spec fn signed32(u: int) -> int {
    if u >= 0x8000_0000 { u - 0x1_0000_0000 } else { u }
}

/// Two's-complement reading of a 64-bit unsigned value.
pub open spec fn signed64(u: int) -> int {
    if u >= 0x8000_0000_0000_0000 { u - 0x1_0000_0000_0000_0000 } else { u }
}

/// A string on the wire: its byte length as four big-endian bytes, then the bytes.
pub open spec fn string_field(b: Seq<u8>) -> Seq<u8> {
    be_bytes(b.len() as int, 4) + b
}

/// What a byte buffer holds.
pub uninterp spec fn buffer_bytes(b: ByteBuffer) -> Seq<u8>;

/// The buffer's write cursor stands at its end with no partial bit-level
/// write pending, so that a write appends.
pub uninterp spec fn buffer_appends(b: ByteBuffer) -> bool;

/// The SHA-256 digest of a byte sequence.
pub uninterp spec fn sha256_of(data: Seq<u8>) -> Seq<u8>;

#[verifier::external_type_specification]
#[verifier::external_body]
pub struct ExByteBuffer(ByteBuffer);

/// Relies on `ByteBuffer::new`: an empty big-endian buffer with both cursors at 0.
#[verifier::external_body]
pub(crate) fn new_buffer() -> (r: ByteBuffer)
    ensures
        buffer_bytes(r) == Seq::<u8>::empty(),
        buffer_appends(r),
{
    ByteBuffer::new()
}

/// Relies on `ByteBuffer::write_u8`: appends one byte.
#[verifier::external_body]
pub(crate) fn put_u8(b: &mut ByteBuffer, v: u8)
    requires
        buffer_appends(*old(b)),
    ensures
        buffer_bytes(*final(b)) == buffer_bytes(*old(b)).push(v),
        buffer_appends(*final(b)),
{
    b.write_u8(v)
}

/// Relies on `ByteBuffer::write_i16`: appends the value's two big-endian bytes.
#[verifier::external_body]
pub(crate) fn put_i16(b: &mut ByteBuffer, v: i16)
    requires
        buffer_appends(*old(b)),
    ensures
        buffer_bytes(*final(b)) == buffer_bytes(*old(b)) + be_bytes(v as int, 2),
        buffer_appends(*final(b)),
{
    b.write_i16(v)
}

/// Relies on `ByteBuffer::write_u32`: appends the value's four big-endian bytes.
#[verifier::external_body]
pub(crate) fn put_u32(b: &mut ByteBuffer, v: u32)
    requires
        buffer_appends(*old(b)),
    ensures
        buffer_bytes(*final(b)) == buffer_bytes(*old(b)) + be_bytes(v as int, 4),
        buffer_appends(*final(b)),
{
    b.write_u32(v)
}

/// Relies on `ByteBuffer::write_i64`: appends the value's eight big-endian bytes.
#[verifier::external_body]
pub(crate) fn put_i64(b: &mut ByteBuffer, v: i64)
    requires
        buffer_appends(*old(b)),
    ensures
        buffer_bytes(*final(b)) == buffer_bytes(*old(b)) + be_bytes(v as int, 8),
        buffer_appends(*final(b)),
{
    b.write_i64(v)
}

/// Relies on `ByteBuffer::write_bytes`: appends the bytes as they are.
#[verifier::external_body]
pub(crate) fn put_bytes(b: &mut ByteBuffer, bytes: &[u8])
    requires
        buffer_appends(*old(b)),
    ensures
        buffer_bytes(*final(b)) == buffer_bytes(*old(b)) + bytes@,
        buffer_appends(*final(b)),
{
    b.write_bytes(bytes)
}

/// Relies on `ByteBuffer::write_string`: appends the UTF-8 length as a
/// big-endian `u32`, then the UTF-8 bytes.
#[verifier::external_body]
pub(crate) fn put_string(b: &mut ByteBuffer, s: &str)
    requires
        buffer_appends(*old(b)),
        s.spec_bytes().len() <= u32::MAX,
    ensures
        buffer_bytes(*final(b)) == buffer_bytes(*old(b)) + string_field(s.spec_bytes()),
        buffer_appends(*final(b)),
{
    b.write_string(s)
}

/// Relies on `ByteBuffer::into_vec`: hands over the buffer's bytes.
#[verifier::external_body]
pub(crate) fn buffer_into_vec(b: ByteBuffer) -> (r: Vec<u8>)
    ensures
        r@ == buffer_bytes(b),
{
    b.into_vec()
}

/// Relies on `BigEndian::read_u32`: the first four bytes as a big-endian `u32`.
#[verifier::external_body]
pub(crate) fn read_be_u32(buf: &[u8]) -> (r: u32)
    requires
        buf@.len() >= 4,
    ensures
        r as int == be_value(buf@.subrange(0, 4)),
{
    byteorder::BigEndian::read_u32(buf)
}

/// Relies on `BigEndian::read_i32`: the first four bytes as a big-endian `i32`.
#[verifier::external_body]
pub(crate) fn read_be_i32(buf: &[u8]) -> (r: i32)
    requires
        buf@.len() >= 4,
    ensures
        r as int == signed32(be_value(buf@.subrange(0, 4)) as int),
{
    byteorder::BigEndian::read_i32(buf)
}

/// Relies on `BigEndian::read_i64`: the first eight bytes as a big-endian `i64`.
#[verifier::external_body]
pub(crate) fn read_be_i64(buf: &[u8]) -> (r: i64)
    requires
        buf@.len() >= 8,
    ensures
        r as int == signed64(be_value(buf@.subrange(0, 8)) as int),
{
    byteorder::BigEndian::read_i64(buf)
}

/// Relies on `sha2::Sha256::digest`: the 32-byte SHA-256 digest of the input.
#[verifier::external_body]
pub(crate) fn sha256(data: &[u8]) -> (r: Vec<u8>)
    ensures
        r@ == sha256_of(data@),
        r@.len() == 32,
{
    <sha2::Sha256 as sha2::Digest>::digest(data).to_vec()
}

/// The bytes `v[start..start + len]` as a vector of their own.
pub fn copy_range(v: &Vec<u8>, start: usize, len: usize) -> (r: Vec<u8>)
    requires
        start + len <= v@.len(),
    ensures
        r@ == v@.subrange(start as int, start + len),
{
    let n: usize = v.len();
    let mut r: Vec<u8> = Vec::with_capacity(len);
    let mut i: usize = 0;
    while i < len
        invariant
            i <= len,
            start + len <= v@.len(),
            n == v@.len(),
            r@ == v@.subrange(start as int, start + i),
        decreases len - i,
    {
        r.push(v[start + i]);
        i = i + 1;
        proof {
            assert(r@ =~= v@.subrange(start as int, start + i));
        }
    }
    r
}

} // verus!
