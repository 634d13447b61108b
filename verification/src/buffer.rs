//! What this crate takes on trust from `bytes` and `byteorder`.
//!
//! A `BytesMut` is a growable run of bytes and a `Bytes` a frozen one. Verus
//! cannot look inside either, so each gets a name for the bytes it holds, and
//! every method used here is given a contract over that name. None of these
//! contracts is proved: they restate what the two crates document.

use byteorder::{BigEndian, ByteOrder};
use bytes::{BufMut, Bytes, BytesMut};
use vstd::prelude::*;

use crate::wire::{be_bytes, be_value};

verus! {

/// `bytes::BytesMut`, a growable buffer. Nothing inside it is visible here.
#[verifier::external_type_specification]
#[verifier::external_body]
pub struct ExBytesMut(BytesMut);

/// `bytes::Bytes`, a frozen buffer. Nothing inside it is visible here.
#[verifier::external_type_specification]
#[verifier::external_body]
pub struct ExBytes(Bytes);

/// The bytes that a `BytesMut` holds, first to last.
pub uninterp spec fn buffer_bytes(b: BytesMut) -> Seq<u8>;

/// The bytes that a `Bytes` holds, first to last.
pub uninterp spec fn frozen_bytes(b: Bytes) -> Seq<u8>;

/// The two's-complement bits of `n`, read as an unsigned number.
pub open spec fn bits_of(n: i32) -> u32 {
    if n >= 0 {
        n as u32
    } else {
        (n + 0x1_0000_0000) as u32
    }
}

/// `BytesMut::with_capacity`: a buffer that holds no bytes yet. The capacity
/// is handed to `Vec::with_capacity`, which panics above `isize::MAX`.
pub assume_specification[ BytesMut::with_capacity ](capacity: usize) -> (b: BytesMut)
    requires
        capacity <= isize::MAX,
    ensures
        buffer_bytes(b) == Seq::<u8>::empty(),
;

/// `BytesMut::len`: the number of bytes held.
pub assume_specification[ BytesMut::len ](b: &BytesMut) -> (n: usize)
    ensures
        n == buffer_bytes(*b).len(),
;

/// `BytesMut::reserve`: makes room and leaves the bytes as they are. It
/// panics when the wanted capacity cannot be allocated, which the
/// precondition rules out as far as lengths can.
pub assume_specification[ BytesMut::reserve ](b: &mut BytesMut, additional: usize)
    requires
        buffer_bytes(*old(b)).len() + additional <= isize::MAX,
    ensures
        buffer_bytes(*final(b)) == buffer_bytes(*old(b)),
;

/// `BytesMut::split_to`: hands out the first `at` bytes and keeps the rest.
/// It panics when `at` is past the end.
pub assume_specification[ BytesMut::split_to ](b: &mut BytesMut, at: usize) -> (head: BytesMut)
    requires
        at <= buffer_bytes(*old(b)).len(),
    ensures
        buffer_bytes(head) == buffer_bytes(*old(b)).subrange(0, at as int),
        buffer_bytes(*final(b)) == buffer_bytes(*old(b)).subrange(
            at as int,
            buffer_bytes(*old(b)).len() as int,
        ),
;

/// `BytesMut::split_off`: keeps the first `at` bytes and hands out the rest.
/// It panics when `at` is past the capacity, so never for an `at` within the
/// length.
pub assume_specification[ BytesMut::split_off ](b: &mut BytesMut, at: usize) -> (tail: BytesMut)
    requires
        at <= buffer_bytes(*old(b)).len(),
    ensures
        buffer_bytes(*final(b)) == buffer_bytes(*old(b)).subrange(0, at as int),
        buffer_bytes(tail) == buffer_bytes(*old(b)).subrange(
            at as int,
            buffer_bytes(*old(b)).len() as int,
        ),
;

/// `BytesMut::freeze`: the same bytes, no longer writable.
pub assume_specification[ BytesMut::freeze ](b: BytesMut) -> (frozen: Bytes)
    ensures
        frozen_bytes(frozen) == buffer_bytes(b),
;

/// `AsRef<[u8]>::as_ref` of a `BytesMut`: the bytes held, as a slice.
#[verifier::external_body]
pub(crate) fn contents(b: &BytesMut) -> (s: &[u8])
    ensures
        s@ == buffer_bytes(*b),
{
    b.as_ref()
}

/// `BufMut::put_u32` on a `BytesMut`: appends the four bytes of `n`, most
/// significant first. The buffer grows as needed; it counts itself full at
/// `isize::MAX` bytes and panics beyond.
#[verifier::external_body]
pub(crate) fn put_u32(dst: &mut BytesMut, n: u32)
    requires
        buffer_bytes(*old(dst)).len() + 4 <= isize::MAX,
    ensures
        buffer_bytes(*final(dst)) == buffer_bytes(*old(dst)) + be_bytes(n),
{
    dst.put_u32(n)
}

/// `BufMut::put_i32` on a `BytesMut`: appends the four bytes of the two's
/// complement of `n`, most significant first. Same limit as `put_u32`.
#[verifier::external_body]
pub(crate) fn put_i32(dst: &mut BytesMut, n: i32)
    requires
        buffer_bytes(*old(dst)).len() + 4 <= isize::MAX,
    ensures
        buffer_bytes(*final(dst)) == buffer_bytes(*old(dst)) + be_bytes(bits_of(n)),
{
    dst.put_i32(n)
}

/// `BufMut::put_slice` on a `BytesMut`: appends `src`. Same limit as
/// `put_u32`.
#[verifier::external_body]
pub(crate) fn put_slice(dst: &mut BytesMut, src: &[u8])
    requires
        buffer_bytes(*old(dst)).len() + src@.len() <= isize::MAX,
    ensures
        buffer_bytes(*final(dst)) == buffer_bytes(*old(dst)) + src@,
{
    dst.put_slice(src)
}

/// `BigEndian::read_u32`: the number that the first four bytes of `buf`
/// spell, most significant first. It panics on fewer than four bytes.
#[verifier::external_body]
pub(crate) fn read_u32(buf: &[u8]) -> (n: u32)
    requires
        buf@.len() >= 4,
    ensures
        n == be_value(buf@),
{
    BigEndian::read_u32(buf)
}

} // verus!
