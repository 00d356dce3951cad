//! The byte buffer that frames are read from and written to: `bytes::BytesMut`.
//!
//! The contracts here say what a buffer holds, not what it has allocated. As with any allocation, a
//! buffer that has to grow when memory is exhausted ends the process.

use bytes::{Buf, BufMut, BytesMut};
use vstd::prelude::*;

verus! {

/// `bytes::BytesMut`, known only through [`buffer_bytes`].
#[verifier::external_type_specification]
#[verifier::external_body]
pub struct ExBytesMut(BytesMut);

/// The bytes that a buffer holds, first to last.
pub uninterp spec fn buffer_bytes(buf: BytesMut) -> Seq<u8>;

/// The four bytes of `n`, most significant first.
pub open spec fn be_bytes(n: u32) -> Seq<u8> {
    seq![
        (n / 0x100_0000) as u8,
        (n / 0x1_0000 % 0x100) as u8,
        (n / 0x100 % 0x100) as u8,
        (n % 0x100) as u8,
    ]
}

/// `BytesMut::len`: the number of bytes held.
#[verifier::external_body]
pub(crate) fn buffer_len(buf: &BytesMut) -> (n: usize)
    ensures
        n == buffer_bytes(*buf).len(),
{
    buf.len()
}

/// `BytesMut::deref`, cut to a range: the bytes from `start` up to `end`.
#[verifier::external_body]
pub(crate) fn buffer_slice(buf: &BytesMut, start: usize, end: usize) -> (s: &[u8])
    requires
        start <= end <= buffer_bytes(*buf).len(),
    ensures
        s@ == buffer_bytes(*buf).subrange(start as int, end as int),
{
    &buf[start..end]
}

/// `Buf::advance` of a `BytesMut`: drops the first `n` bytes. It panics past the end, which
/// `requires` leaves out.
#[verifier::external_body]
pub(crate) fn buffer_advance(buf: &mut BytesMut, n: usize)
    requires
        n <= buffer_bytes(*old(buf)).len(),
    ensures
        buffer_bytes(*final(buf)) == buffer_bytes(*old(buf)).skip(n as int),
{
    buf.advance(n)
}

/// `BufMut::put_u32` of a `BytesMut`: appends `n` as four bytes, most significant first. A buffer
/// cannot grow past `isize::MAX` bytes, which `requires` leaves out.
#[verifier::external_body]
pub(crate) fn buffer_put_u32(buf: &mut BytesMut, n: u32)
    requires
        buffer_bytes(*old(buf)).len() + 4 <= isize::MAX,
    ensures
        buffer_bytes(*final(buf)) == buffer_bytes(*old(buf)) + be_bytes(n),
{
    buf.put_u32(n)
}

/// `BytesMut::resize`: cuts the buffer to `len` bytes, or fills it up to `len` bytes with `value`.
/// A buffer cannot grow past `isize::MAX` bytes, which `requires` leaves out.
#[verifier::external_body]
pub(crate) fn buffer_resize(buf: &mut BytesMut, len: usize, value: u8)
    requires
        len <= isize::MAX,
    ensures
        buffer_bytes(*final(buf)).len() == len,
        forall|i: int|
            0 <= i < len ==> #[trigger] buffer_bytes(*final(buf))[i] == (if i < buffer_bytes(
                *old(buf),
            ).len() {
                buffer_bytes(*old(buf))[i]
            } else {
                value
            }),
{
    buf.resize(len, value)
}

/// `BytesMut::deref_mut`, cut to a range and overwritten: the bytes from `start` up to `end`
/// become those of `data`, and no other byte changes.
#[verifier::external_body]
pub(crate) fn buffer_write(buf: &mut BytesMut, start: usize, end: usize, data: &[u8])
    requires
        start <= end <= buffer_bytes(*old(buf)).len(),
        end - start == data@.len(),
    ensures
        buffer_bytes(*final(buf)) == buffer_bytes(*old(buf)).take(start as int) + data@
            + buffer_bytes(*old(buf)).skip(end as int),
{
    buf[start..end].copy_from_slice(data)
}

} // verus!
