//! Byte buffers of the `bytes` crate, as far as the framing uses them, and
//! the big-endian form of a length.
//!
//! The functions that call into `bytes` are not proved: each states what the
//! source of `bytes` shows of the method that it calls. What is said here of
//! byte order is proved.

use vstd::prelude::*;

verus! {

#[verifier::external_type_specification]
#[verifier::external_body]
pub struct ExBytesMut(bytes::BytesMut);

/// The bytes that a buffer holds, from the first that would be read to the
/// last that was written.
pub uninterp spec fn buffered(buffer: bytes::BytesMut) -> Seq<u8>;

/// The four bytes of `n`, most significant first.
pub open spec fn be32(n: u32) -> Seq<u8> {
    seq![
        (n / 0x100_0000) as u8,
        ((n / 0x1_0000) % 0x100) as u8,
        ((n / 0x100) % 0x100) as u8,
        (n % 0x100) as u8,
    ]
}

/// The number whose big-endian form is the first four bytes of `bytes`.
pub open spec fn be32_value(bytes: Seq<u8>) -> int
    recommends
        bytes.len() >= 4,
{
    bytes[0] * 0x100_0000 + bytes[1] * 0x1_0000 + bytes[2] * 0x100 + bytes[3]
}

/// Reading back the four bytes of a number gives that number.
pub proof fn lemma_be32_value_of_be32(n: u32)
    ensures
        be32(n).len() == 4,
        be32_value(be32(n)) == n,
{
}

/// Writing the number that four bytes stand for gives back those bytes.
pub proof fn lemma_be32_of_be32_value(bytes: Seq<u8>)
    requires
        bytes.len() == 4,
    ensures
        0 <= be32_value(bytes) <= u32::MAX,
        be32(be32_value(bytes) as u32) == bytes,
{
    let (a, b, c, d) = (bytes[0] as int, bytes[1] as int, bytes[2] as int, bytes[3] as int);
    let v = be32_value(bytes);
    assert(v / 0x100_0000 == a && (v / 0x1_0000) % 0x100 == b && (v / 0x100) % 0x100 == c && v
        % 0x100 == d) by (nonlinear_arith)
        requires
            v == a * 0x100_0000 + b * 0x1_0000 + c * 0x100 + d,
            0 <= a < 0x100,
            0 <= b < 0x100,
            0 <= c < 0x100,
            0 <= d < 0x100,
    ;
    assert(be32(v as u32) =~= bytes);
}

/// Bytes that start with a length prefix are that prefix's number, written
/// out again, followed by the rest.
pub proof fn lemma_split_prefix(bytes: Seq<u8>)
    requires
        bytes.len() >= 4,
    ensures
        0 <= be32_value(bytes) <= u32::MAX,
        be32(be32_value(bytes) as u32) + bytes.skip(4) == bytes,
{
    lemma_be32_of_be32_value(bytes.take(4));
    assert(be32(be32_value(bytes) as u32) + bytes.skip(4) =~= bytes);
}

/// A number written in front of other bytes is read back from their front.
pub proof fn lemma_join_prefix(n: u32, rest: Seq<u8>)
    ensures
        (be32(n) + rest).len() == 4 + rest.len(),
        be32_value(be32(n) + rest) == n,
        (be32(n) + rest).skip(4) == rest,
{
    lemma_be32_value_of_be32(n);
    assert((be32(n) + rest).skip(4) =~= rest);
}

/// `BytesMut::new`: a buffer that holds no bytes.
#[verifier::external_body]
pub(crate) fn new_buffer() -> (buffer: bytes::BytesMut)
    ensures
        buffered(buffer) == Seq::<u8>::empty(),
{
    bytes::BytesMut::new()
}

/// `BytesMut::len`: the number of bytes held.
#[verifier::external_body]
pub(crate) fn buffer_len(buffer: &bytes::BytesMut) -> (len: usize)
    ensures
        len == buffered(*buffer).len(),
{
    buffer.len()
}

/// `BufMut::put_u32` on a `BytesMut`: appends the four bytes of `n` in
/// big-endian order. The buffer grows as needed; it cannot grow beyond
/// `isize::MAX` bytes.
#[verifier::external_body]
pub(crate) fn put_u32(buffer: &mut bytes::BytesMut, n: u32)
    requires
        buffered(*old(buffer)).len() + 4 <= isize::MAX,
    ensures
        buffered(*final(buffer)) == buffered(*old(buffer)) + be32(n),
{
    bytes::BufMut::put_u32(buffer, n)
}

/// `BufMut::put_slice` on a `BytesMut`: appends the bytes of `src`. The buffer
/// grows as needed; it cannot grow beyond `isize::MAX` bytes.
#[verifier::external_body]
pub(crate) fn put_slice(buffer: &mut bytes::BytesMut, src: &[u8])
    requires
        buffered(*old(buffer)).len() + src@.len() <= isize::MAX,
    ensures
        buffered(*final(buffer)) == buffered(*old(buffer)) + src@,
{
    bytes::BufMut::put_slice(buffer, src)
}

/// `Buf::get_u32` on a `BytesMut`: removes the first four bytes and returns
/// the number that they form in big-endian order. It panics on fewer than
/// four bytes.
#[verifier::external_body]
pub(crate) fn get_u32(buffer: &mut bytes::BytesMut) -> (n: u32)
    requires
        buffered(*old(buffer)).len() >= 4,
    ensures
        n == be32_value(buffered(*old(buffer))),
        buffered(*final(buffer)) == buffered(*old(buffer)).skip(4),
{
    bytes::Buf::get_u32(buffer)
}

/// `Buf::advance` on a `BytesMut`: removes the first `count` bytes. It panics
/// where the buffer holds fewer.
#[verifier::external_body]
pub(crate) fn advance(buffer: &mut bytes::BytesMut, count: usize)
    requires
        count <= buffered(*old(buffer)).len(),
    ensures
        buffered(*final(buffer)) == buffered(*old(buffer)).skip(count as int),
{
    bytes::Buf::advance(buffer, count)
}

/// `BytesMut::clear`: removes all bytes.
#[verifier::external_body]
pub(crate) fn clear(buffer: &mut bytes::BytesMut)
    ensures
        buffered(*final(buffer)) == Seq::<u8>::empty(),
{
    buffer.clear()
}

/// The `Deref` of a `BytesMut` to its bytes: all of them, in order.
#[verifier::external_body]
pub(crate) fn bytes_of(buffer: &bytes::BytesMut) -> (bytes: &[u8])
    ensures
        bytes@ == buffered(*buffer),
{
    &buffer[..]
}

} // verus!
