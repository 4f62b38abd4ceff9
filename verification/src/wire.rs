//! Big-endian integers, and the byte buffer through which frames and payloads
//! are read and written.
//!
//! The buffer is `bytebuffer::ByteBuffer`. What this module states of it is
//! taken on trust; everything built on top is proved from these statements.

use crate::error::ZigateError;
use bytebuffer::ByteBuffer;
use vstd::prelude::*;

verus! {

/// The 16-bit value whose big-endian encoding is `hi, lo`.
pub open spec fn be16(hi: u8, lo: u8) -> u16 {
    (hi as int * 256 + lo as int) as u16
}

/// The more significant byte of `n`.
pub open spec fn hi8(n: u16) -> u8 {
    (n as int / 256) as u8
}

/// The less significant byte of `n`.
pub open spec fn lo8(n: u16) -> u8 {
    (n as int % 256) as u8
}

/// The big-endian encoding of a 16-bit value.
pub open spec fn be16_bytes(n: u16) -> Seq<u8> {
    seq![hi8(n), lo8(n)]
}

/// The big-endian encoding of a 32-bit value.
pub open spec fn be32_bytes(n: u32) -> Seq<u8> {
    seq![
        (n as int / 0x100_0000) as u8,
        (n as int / 0x1_0000 % 256) as u8,
        (n as int / 0x100 % 256) as u8,
        (n as int % 256) as u8,
    ]
}

/// The number that a byte string denotes when read as a big-endian integer.
pub open spec fn be_value(bytes: Seq<u8>) -> nat
    decreases bytes.len(),
{
    if bytes.len() == 0 {
        0
    } else {
        be_value(bytes.drop_last()) * 256 + bytes.last() as nat
    }
}

/// Splitting a 16-bit value into its bytes and joining them gives it back.
pub proof fn lemma_be16_of_bytes(n: u16)
    ensures
        be16(hi8(n), lo8(n)) == n,
{
}

/// Joining two bytes and splitting the result gives them back, so `be16` is
/// one-to-one.
pub proof fn lemma_bytes_of_be16(hi: u8, lo: u8)
    ensures
        hi8(be16(hi, lo)) == hi,
        lo8(be16(hi, lo)) == lo,
{
}

/// `bytebuffer::ByteBuffer`, taken as a whole: nothing of what is inside a
/// buffer is visible but through the four functions below.
#[verifier::external_type_specification]
#[verifier::external_body]
pub struct ExByteBuffer(ByteBuffer);

/// `std::io::Error`, the error of the buffer's reads; only carried, never
/// looked into.
#[verifier::external_type_specification]
#[verifier::external_body]
pub struct ExIoError(std::io::Error);

/// All the bytes that a buffer holds, read or not.
pub uninterp spec fn buffer_bytes(buf: ByteBuffer) -> Seq<u8>;

/// The index in [`buffer_bytes`] of the next byte that a whole-byte read delivers.
pub uninterp spec fn buffer_rpos(buf: ByteBuffer) -> nat;

/// The index in [`buffer_bytes`] at which the next whole-byte write lands.
pub uninterp spec fn buffer_wpos(buf: ByteBuffer) -> nat;

/// Whether a buffer reads and writes multi-byte integers most significant byte first.
pub uninterp spec fn buffer_big_endian(buf: ByteBuffer) -> bool;

/// `bytebuffer::ByteBuffer::new`: an empty big-endian buffer with both cursors at 0.
#[verifier::external_body]
pub(crate) fn empty_buffer() -> (buf: ByteBuffer)
    ensures
        buffer_bytes(buf) == Seq::<u8>::empty(),
        buffer_rpos(buf) == 0,
        buffer_wpos(buf) == 0,
        buffer_big_endian(buf),
{
    ByteBuffer::new()
}

/// `bytebuffer::ByteBuffer::from_bytes`: a big-endian buffer that holds a copy
/// of `bytes`, with nothing read yet and the write cursor behind the last byte.
pub assume_specification[ ByteBuffer::from_bytes ](bytes: &[u8]) -> (buf: ByteBuffer)
    ensures
        buffer_bytes(buf) == bytes@,
        buffer_rpos(buf) == 0,
        buffer_wpos(buf) == bytes@.len(),
        buffer_big_endian(buf),
;

/// Whether a read left everything but the read cursor as it was: the bytes,
/// the write cursor and the byte order.
pub open spec fn read_only(before: ByteBuffer, after: ByteBuffer) -> bool {
    &&& buffer_bytes(after) == buffer_bytes(before)
    &&& buffer_wpos(after) == buffer_wpos(before)
    &&& buffer_big_endian(after) == buffer_big_endian(before)
}

/// `bytebuffer::ByteBuffer::read_u8`: the byte under the read cursor, which
/// then moves one byte on; an error, and no move, when no byte is left.
pub assume_specification[ ByteBuffer::read_u8 ](buf: &mut ByteBuffer) -> (r: std::io::Result<u8>)
    ensures
        read_only(*old(buf), *final(buf)),
        ({
            let bytes = buffer_bytes(*old(buf));
            let at = buffer_rpos(*old(buf)) as int;
            if at + 1 <= bytes.len() {
                r is Ok && r->Ok_0 == bytes[at] && buffer_rpos(*final(buf)) == at + 1
            } else {
                r is Err && buffer_rpos(*final(buf)) == at
            }
        }),
;

/// `bytebuffer::ByteBuffer::read_u16`: the two bytes under the read cursor,
/// which then moves two bytes on; joined most significant first in a
/// big-endian buffer. An error, and no move, when fewer than two are left.
pub assume_specification[ ByteBuffer::read_u16 ](buf: &mut ByteBuffer) -> (r: std::io::Result<u16>)
    ensures
        read_only(*old(buf), *final(buf)),
        ({
            let bytes = buffer_bytes(*old(buf));
            let at = buffer_rpos(*old(buf)) as int;
            if at + 2 <= bytes.len() {
                &&& r is Ok
                &&& buffer_rpos(*final(buf)) == at + 2
                &&& buffer_big_endian(*old(buf)) ==> r->Ok_0 == be16(bytes[at], bytes[at + 1])
            } else {
                r is Err && buffer_rpos(*final(buf)) == at
            }
        }),
;

/// `bytebuffer::ByteBuffer::read_u64`: the eight bytes under the read cursor,
/// which then moves eight bytes on; read as one big-endian number in a
/// big-endian buffer. An error, and no move, when fewer than eight are left.
pub assume_specification[ ByteBuffer::read_u64 ](buf: &mut ByteBuffer) -> (r: std::io::Result<u64>)
    ensures
        read_only(*old(buf), *final(buf)),
        ({
            let bytes = buffer_bytes(*old(buf));
            let at = buffer_rpos(*old(buf)) as int;
            if at + 8 <= bytes.len() {
                &&& r is Ok
                &&& buffer_rpos(*final(buf)) == at + 8
                &&& buffer_big_endian(*old(buf)) ==> r->Ok_0 as nat == be_value(
                    bytes.subrange(at, at + 8),
                )
            } else {
                r is Err && buffer_rpos(*final(buf)) == at
            }
        }),
;

/// `bytebuffer::ByteBuffer::read_bytes`: a copy of the `size` bytes under the
/// read cursor, which then moves behind them; an error, and no move, when
/// fewer than `size` are left.
pub assume_specification[ ByteBuffer::read_bytes ](buf: &mut ByteBuffer, size: usize) -> (r:
    std::io::Result<Vec<u8>>)
    requires
        buffer_rpos(*old(buf)) + size <= usize::MAX,
    ensures
        read_only(*old(buf), *final(buf)),
        ({
            let bytes = buffer_bytes(*old(buf));
            let at = buffer_rpos(*old(buf)) as int;
            if at + size <= bytes.len() {
                &&& r is Ok
                &&& buffer_rpos(*final(buf)) == at + size
                &&& r->Ok_0@ == bytes.subrange(at, at + size)
            } else {
                r is Err && buffer_rpos(*final(buf)) == at
            }
        }),
;

/// `bytebuffer::ByteBuffer::write_u8`: with the write cursor at the end of
/// the data, the byte is appended and the cursor stays at the end.
pub assume_specification[ ByteBuffer::write_u8 ](buf: &mut ByteBuffer, val: u8)
    requires
        buffer_wpos(*old(buf)) == buffer_bytes(*old(buf)).len(),
    ensures
        buffer_bytes(*final(buf)) == buffer_bytes(*old(buf)).push(val),
        buffer_wpos(*final(buf)) == buffer_bytes(*final(buf)).len(),
        buffer_rpos(*final(buf)) == buffer_rpos(*old(buf)),
        buffer_big_endian(*final(buf)) == buffer_big_endian(*old(buf)),
;

/// `bytebuffer::ByteBuffer::write_u16`: with the write cursor at the end of
/// the data of a big-endian buffer, the two bytes of `val` are appended, most
/// significant first, and the cursor stays at the end.
pub assume_specification[ ByteBuffer::write_u16 ](buf: &mut ByteBuffer, val: u16)
    requires
        buffer_big_endian(*old(buf)),
        buffer_wpos(*old(buf)) == buffer_bytes(*old(buf)).len(),
    ensures
        buffer_bytes(*final(buf)) == buffer_bytes(*old(buf)) + be16_bytes(val),
        buffer_wpos(*final(buf)) == buffer_bytes(*final(buf)).len(),
        buffer_rpos(*final(buf)) == buffer_rpos(*old(buf)),
        buffer_big_endian(*final(buf)),
;

/// `bytebuffer::ByteBuffer::write_bytes`: with the write cursor at the end of
/// the data, `bytes` are appended in order and the cursor stays at the end.
pub assume_specification[ ByteBuffer::write_bytes ](buf: &mut ByteBuffer, bytes: &[u8])
    requires
        buffer_wpos(*old(buf)) == buffer_bytes(*old(buf)).len(),
    ensures
        buffer_bytes(*final(buf)) == buffer_bytes(*old(buf)) + bytes@,
        buffer_wpos(*final(buf)) == buffer_bytes(*final(buf)).len(),
        buffer_rpos(*final(buf)) == buffer_rpos(*old(buf)),
        buffer_big_endian(*final(buf)) == buffer_big_endian(*old(buf)),
;

/// `bytebuffer::ByteBuffer::into_vec`: all the bytes that the buffer holds.
pub assume_specification[ ByteBuffer::into_vec ](buf: ByteBuffer) -> (bytes: Vec<u8>)
    ensures
        bytes@ == buffer_bytes(buf),
;

/// A buffer in the middle of parsing `bytes`: it holds exactly them, reads
/// big-endian, and has consumed the first `pos` of them.
pub open spec fn reading(buf: ByteBuffer, bytes: Seq<u8>, pos: int) -> bool {
    buffer_bytes(buf) == bytes && buffer_rpos(buf) == pos && buffer_big_endian(buf)
}

/// A buffer over a copy of `bytes`, ready to parse them from the start.
pub(crate) fn reader(bytes: &Vec<u8>) -> (buf: ByteBuffer)
    ensures
        reading(buf, bytes@, 0),
{
    ByteBuffer::from_bytes(bytes.as_slice())
}

/// What a parsing step that needs `n` bytes owes: with `n` bytes left it
/// succeeds and consumes them; with fewer it is a decode failure and
/// consumes nothing.
pub open spec fn took<T>(
    before: ByteBuffer,
    after: ByteBuffer,
    n: int,
    r: Result<T, ZigateError>,
) -> bool {
    let bytes = buffer_bytes(before);
    let at = buffer_rpos(before) as int;
    if at + n <= bytes.len() {
        r is Ok && reading(after, bytes, at + n)
    } else {
        r == Err::<T, ZigateError>(ZigateError::DecodeFailure) && reading(after, bytes, at)
    }
}

/// Reads one byte; a decode failure, with nothing consumed, at the end of the data.
pub(crate) fn take_u8(buf: &mut ByteBuffer) -> (r: Result<u8, ZigateError>)
    requires
        buffer_big_endian(*old(buf)),
    ensures
        took(*old(buf), *final(buf), 1, r),
        r is Ok ==> r->Ok_0 == buffer_bytes(*old(buf))[buffer_rpos(*old(buf)) as int],
{
    match buf.read_u8() {
        Ok(v) => Ok(v),
        Err(_) => Err(ZigateError::DecodeFailure),
    }
}

/// Reads a big-endian 16-bit value; a decode failure, with nothing consumed,
/// when fewer than two bytes are left.
pub(crate) fn take_u16(buf: &mut ByteBuffer) -> (r: Result<u16, ZigateError>)
    requires
        buffer_big_endian(*old(buf)),
    ensures
        took(*old(buf), *final(buf), 2, r),
        r is Ok ==> r->Ok_0 == be16(
            buffer_bytes(*old(buf))[buffer_rpos(*old(buf)) as int],
            buffer_bytes(*old(buf))[buffer_rpos(*old(buf)) as int + 1],
        ),
{
    match buf.read_u16() {
        Ok(v) => Ok(v),
        Err(_) => Err(ZigateError::DecodeFailure),
    }
}

/// The 64-bit value that eight bytes of `bytes`, from index `at` on, denote
/// in big-endian order.
pub open spec fn be64_at(bytes: Seq<u8>, at: int) -> u64 {
    be_value(bytes.subrange(at, at + 8)) as u64
}

/// Reads a big-endian 64-bit value; a decode failure, with nothing consumed,
/// when fewer than eight bytes are left.
pub(crate) fn take_u64(buf: &mut ByteBuffer) -> (r: Result<u64, ZigateError>)
    requires
        buffer_big_endian(*old(buf)),
    ensures
        took(*old(buf), *final(buf), 8, r),
        r is Ok ==> r->Ok_0 == be64_at(buffer_bytes(*old(buf)), buffer_rpos(*old(buf)) as int),
{
    match buf.read_u64() {
        Ok(v) => Ok(v),
        Err(_) => Err(ZigateError::DecodeFailure),
    }
}

/// Reads `size` bytes; a decode failure, with nothing consumed, when fewer are left.
pub(crate) fn take_bytes(buf: &mut ByteBuffer, size: u16) -> (r: Result<Vec<u8>, ZigateError>)
    requires
        buffer_big_endian(*old(buf)),
        buffer_rpos(*old(buf)) + size <= usize::MAX,
    ensures
        took(*old(buf), *final(buf), size as int, r),
        r is Ok ==> r->Ok_0@ == buffer_bytes(*old(buf)).subrange(
            buffer_rpos(*old(buf)) as int,
            buffer_rpos(*old(buf)) as int + size,
        ),
{
    match buf.read_bytes(size as usize) {
        Ok(v) => Ok(v),
        Err(_) => Err(ZigateError::DecodeFailure),
    }
}

} // verus!
