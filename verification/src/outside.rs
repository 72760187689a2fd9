//! The calls into other crates and into the parts of std that carry no
//! specification
//!
//! Nothing in this module is proved: each contract below states what is
//! believed of the function that it names, and everything else in the crate
//! rests on it.

use vstd::prelude::*;

use bytes::{Buf, Bytes, BytesMut};
use num::Integer;
use std::io::Cursor;
use std::time::{Duration, Instant};

verus! {

/// `bytes::Bytes`, a shared, immutable run of bytes.
#[verifier::external_type_specification]
#[verifier::external_body]
pub struct ExBytes(bytes::Bytes);

/// `bytes::BytesMut`, a growable run of bytes.
#[verifier::external_type_specification]
#[verifier::external_body]
pub struct ExBytesMut(bytes::BytesMut);

/// `std::io::Cursor`, a buffer with a reading position.
#[verifier::external_type_specification]
#[verifier::external_body]
#[verifier::reject_recursive_types(T)]
pub struct ExCursor<T>(std::io::Cursor<T>);

/// `std::time::Instant`, a point of the monotonic clock.
#[verifier::external_type_specification]
#[verifier::external_body]
pub struct ExInstant(std::time::Instant);

/// The bytes that a `Bytes` holds.
pub uninterp spec fn bytes_contents(bytes: bytes::Bytes) -> Seq<u8>;

/// The bytes that a `BytesMut` holds.
pub uninterp spec fn bytes_mut_contents(bytes: bytes::BytesMut) -> Seq<u8>;

/// The bytes of a cursor that lie at or behind its position.
pub uninterp spec fn cursor_unread(cursor: std::io::Cursor<bytes::Bytes>) -> Seq<u8>;

/// The whole seconds of a duration.
pub uninterp spec fn duration_secs(duration: std::time::Duration) -> u64;

/// `Bytes::from(&[u8])`: the result holds a copy of the slice.
#[verifier::external_body]
pub(crate) fn bytes_from_slice(src: &[u8]) -> (bytes: Bytes)
    ensures
        bytes_contents(bytes) == src@,
{
    Bytes::from(src)
}

/// `Cursor::new`: the cursor starts at the first byte, so that all of the
/// buffer is unread.
#[verifier::external_body]
pub(crate) fn cursor_new(bytes: Bytes) -> (cursor: Cursor<Bytes>)
    ensures
        cursor_unread(cursor) == bytes_contents(bytes),
{
    Cursor::new(bytes)
}

/// `Buf::has_remaining` of a cursor: whether any byte is unread.
#[verifier::external_body]
pub(crate) fn cursor_has_remaining(cursor: &Cursor<Bytes>) -> (more: bool)
    ensures
        more == (cursor_unread(*cursor).len() > 0),
{
    cursor.has_remaining()
}

/// `Buf::remaining` of a cursor: how many bytes are unread.
#[verifier::external_body]
pub(crate) fn cursor_remaining(cursor: &Cursor<Bytes>) -> (count: usize)
    ensures
        count == cursor_unread(*cursor).len(),
{
    cursor.remaining()
}

/// `Buf::copy_to_slice` of a cursor: fills all of `dst` with the first unread
/// bytes, which are then read. It panics where there are fewer unread bytes
/// than `dst` has room for.
#[verifier::external_body]
pub(crate) fn cursor_copy_to_slice(cursor: &mut Cursor<Bytes>, dst: &mut [u8])
    requires
        old(dst)@.len() <= cursor_unread(*old(cursor)).len(),
    ensures
        final(dst)@ == cursor_unread(*old(cursor)).take(old(dst)@.len() as int),
        cursor_unread(*final(cursor)) == cursor_unread(*old(cursor)).skip(
            old(dst)@.len() as int,
        ),
{
    cursor.copy_to_slice(dst)
}

/// `BytesMut::as_ref`: the bytes held, as a slice.
#[verifier::external_body]
pub(crate) fn bytes_mut_as_ref(bytes: &BytesMut) -> (slice: &[u8])
    ensures
        slice@ == bytes_mut_contents(*bytes),
{
    bytes.as_ref()
}

/// `BytesMut::advance`: drops the first `count` bytes and keeps the rest. It
/// panics where there are fewer than `count`.
#[verifier::external_body]
pub(crate) fn bytes_mut_advance(bytes: &mut BytesMut, count: usize)
    requires
        count <= bytes_mut_contents(*old(bytes)).len(),
    ensures
        bytes_mut_contents(*final(bytes)) == bytes_mut_contents(*old(bytes)).skip(count as int),
{
    bytes.advance(count)
}

/// `BytesMut::extend_from_slice`: appends the slice, and makes room for it
/// first. It panics where a buffer of that length cannot be allocated: none
/// is longer than `isize::MAX`.
#[verifier::external_body]
pub(crate) fn bytes_mut_extend_from_slice(bytes: &mut BytesMut, extend: &[u8])
    requires
        bytes_mut_contents(*old(bytes)).len() + extend@.len() <= isize::MAX,
    ensures
        bytes_mut_contents(*final(bytes)) == bytes_mut_contents(*old(bytes)) + extend@,
{
    bytes.extend_from_slice(extend)
}

/// `Instant::now`. What the clock shows is not stated; contracts say of an
/// instant that it came from this call.
#[verifier::external_body]
pub fn instant_now() -> (now: Instant) {
    Instant::now()
}

/// `Instant::elapsed`. How much time has passed is not stated; contracts say
/// of a duration that it came from this call, on which instant.
#[verifier::external_body]
pub fn instant_elapsed(since: &Instant) -> (elapsed: Duration) {
    since.elapsed()
}

/// `Duration::as_secs`: the number of whole seconds, which the duration alone
/// determines.
#[verifier::external_body]
pub(crate) fn duration_as_secs(duration: &Duration) -> (secs: u64)
    ensures
        secs == duration_secs(*duration),
{
    duration.as_secs()
}

/// `Integer::div_rem` of `num`, on `u64`: the quotient and the remainder. It
/// panics where the divisor is zero.
#[verifier::external_body]
pub(crate) fn u64_div_rem(dividend: u64, divisor: u64) -> (parts: (u64, u64))
    requires
        divisor != 0,
    ensures
        parts.0 == dividend / divisor,
        parts.1 == dividend % divisor,
{
    dividend.div_rem(&divisor)
}

} // verus!
