//! The growable byte buffer that frames and payloads live in, and the
//! bounds-checked accessors that the parsers use on it.
use bytes::{Buf, BufMut, BytesMut};
use vstd::prelude::*;

verus! {

#[verifier::external_type_specification]
#[verifier::external_body]
pub struct ExBytesMut(BytesMut);

/// The bytes that a buffer holds, front to back.
pub uninterp spec fn bytes_of(b: BytesMut) -> Seq<u8>;

/// The value of four bytes read in network (big-endian) order.
pub open spec fn be_u32(s: Seq<u8>) -> int
    recommends
        s.len() >= 4,
{
    s[0] * 16777216 + s[1] * 65536 + s[2] * 256 + s[3]
}

/// The four bytes of `v` in network (big-endian) order.
pub open spec fn u32_be_bytes(v: u32) -> Seq<u8> {
    seq![(v >> 24u32) as u8, (v >> 16u32) as u8, (v >> 8u32) as u8, v as u8]
}

/// The two bytes of `v` in network (big-endian) order.
pub open spec fn u16_be_bytes(v: u16) -> Seq<u8> {
    seq![(v >> 8u16) as u8, v as u8]
}

/// The value of two bytes read in network (big-endian) order.
pub open spec fn be_u16(s: Seq<u8>) -> int
    recommends
        s.len() >= 2,
{
    s[0] * 256 + s[1]
}

pub proof fn lemma_be_u32_of_bytes(v: u32)
    ensures
        be_u32(u32_be_bytes(v)) == v,
        u32_be_bytes(v).len() == 4,
{
    let b0 = (v >> 24u32) as u8;
    let b1 = (v >> 16u32) as u8;
    let b2 = (v >> 8u32) as u8;
    let b3 = v as u8;
    assert(b0 as u32 * 16777216 + b1 as u32 * 65536 + b2 as u32 * 256 + b3 as u32 == v)
        by (bit_vector)
        requires
            b0 == (v >> 24u32) as u8,
            b1 == (v >> 16u32) as u8,
            b2 == (v >> 8u32) as u8,
            b3 == v as u8,
    ;
}

pub proof fn lemma_be_u16_of_bytes(v: u16)
    ensures
        be_u16(u16_be_bytes(v)) == v,
        u16_be_bytes(v).len() == 2,
{
    let b0 = (v >> 8u16) as u8;
    let b1 = v as u8;
    assert(b0 as u16 * 256 + b1 as u16 == v) by (bit_vector)
        requires
            b0 == (v >> 8u16) as u8,
            b1 == v as u8,
    ;
}

/// `n`, or `usize::MAX` where `n` is larger.
pub open spec fn capped(n: nat) -> usize {
    if n > usize::MAX {
        usize::MAX
    } else {
        n as usize
    }
}

/// `a + b`, held at `usize::MAX`.
pub fn sat_add(a: usize, b: usize) -> (r: usize)
    ensures
        r == capped((a + b) as nat),
{
    if a > usize::MAX - b {
        usize::MAX
    } else {
        a + b
    }
}

/// Relies on `BytesMut::new`: a new buffer holds no bytes.
#[verifier::external_body]
pub(crate) fn buf_new() -> (r: BytesMut)
    ensures
        bytes_of(r) == Seq::<u8>::empty(),
{
    BytesMut::new()
}

/// Relies on `BytesMut::from(&[u8])`: the buffer holds a copy of the slice.
#[verifier::external_body]
pub(crate) fn buf_from_slice(s: &[u8]) -> (r: BytesMut)
    ensures
        bytes_of(r) == s@,
{
    BytesMut::from(s)
}

/// Relies on `BytesMut::len`: the number of bytes held.
#[verifier::external_body]
pub(crate) fn buf_len(b: &BytesMut) -> (r: usize)
    ensures
        r == bytes_of(*b).len(),
{
    b.len()
}

/// Relies on indexing the slice that `BytesMut` dereferences to.
#[verifier::external_body]
pub(crate) fn buf_byte(b: &BytesMut, i: usize) -> (r: u8)
    requires
        i < bytes_of(*b).len(),
    ensures
        r == bytes_of(*b)[i as int],
{
    b[i]
}

/// Relies on `<[u8]>::to_vec` on the bytes that `BytesMut` dereferences to.
#[verifier::external_body]
pub(crate) fn buf_to_vec(b: &BytesMut) -> (r: Vec<u8>)
    ensures
        r@ == bytes_of(*b),
{
    b.to_vec()
}

/// Relies on `BytesMut::split_to`: the first `at` bytes are handed out, the
/// rest stay (it panics past the length, which `requires` rules out).
#[verifier::external_body]
pub(crate) fn buf_split_to(b: &mut BytesMut, at: usize) -> (r: BytesMut)
    requires
        at <= bytes_of(*old(b)).len(),
    ensures
        bytes_of(r) == bytes_of(*old(b)).take(at as int),
        bytes_of(*final(b)) == bytes_of(*old(b)).skip(at as int),
{
    b.split_to(at)
}

/// Relies on `BytesMut::split_off`: the bytes from `at` on are handed out, the
/// first `at` stay.
#[verifier::external_body]
pub(crate) fn buf_split_off(b: &mut BytesMut, at: usize) -> (r: BytesMut)
    requires
        at <= bytes_of(*old(b)).len(),
    ensures
        bytes_of(r) == bytes_of(*old(b)).skip(at as int),
        bytes_of(*final(b)) == bytes_of(*old(b)).take(at as int),
{
    b.split_off(at)
}

/// Relies on `Buf::advance` for `BytesMut`: the first `n` bytes are dropped.
#[verifier::external_body]
pub(crate) fn buf_advance(b: &mut BytesMut, n: usize)
    requires
        n <= bytes_of(*old(b)).len(),
    ensures
        bytes_of(*final(b)) == bytes_of(*old(b)).skip(n as int),
{
    b.advance(n)
}

/// Relies on `Buf::get_u8` for `BytesMut`: reads and drops the first byte.
#[verifier::external_body]
pub(crate) fn buf_get_u8(b: &mut BytesMut) -> (r: u8)
    requires
        bytes_of(*old(b)).len() >= 1,
    ensures
        r == bytes_of(*old(b))[0],
        bytes_of(*final(b)) == bytes_of(*old(b)).skip(1),
{
    b.get_u8()
}

/// Relies on `Buf::get_u32` for `BytesMut`: reads and drops four bytes in
/// big-endian order.
#[verifier::external_body]
pub(crate) fn buf_get_u32(b: &mut BytesMut) -> (r: u32)
    requires
        bytes_of(*old(b)).len() >= 4,
    ensures
        r == be_u32(bytes_of(*old(b))),
        bytes_of(*final(b)) == bytes_of(*old(b)).skip(4),
{
    b.get_u32()
}

/// Relies on `BytesMut::extend_from_slice`: appends the slice (it panics where
/// the capacity would overflow, which `requires` rules out).
#[verifier::external_body]
pub(crate) fn buf_extend(b: &mut BytesMut, s: &[u8])
    requires
        bytes_of(*old(b)).len() + s@.len() <= isize::MAX,
    ensures
        bytes_of(*final(b)) == bytes_of(*old(b)) + s@,
{
    b.extend_from_slice(s)
}

/// Relies on `BufMut::put_u8` for `BytesMut`: appends one byte (it panics
/// where the capacity would overflow, which `requires` rules out).
#[verifier::external_body]
pub(crate) fn buf_put_u8(b: &mut BytesMut, x: u8)
    requires
        bytes_of(*old(b)).len() + 1 <= isize::MAX,
    ensures
        bytes_of(*final(b)) == bytes_of(*old(b)).push(x),
{
    b.put_u8(x)
}

/// Relies on `BytesMut::reserve`: makes room and leaves the bytes as they are
/// (it panics where the new capacity overflows, which `requires` rules out).
#[verifier::external_body]
pub(crate) fn buf_reserve(b: &mut BytesMut, additional: usize)
    requires
        bytes_of(*old(b)).len() + additional <= isize::MAX,
    ensures
        bytes_of(*final(b)) == bytes_of(*old(b)),
{
    b.reserve(additional)
}

/// Makes room for `additional` more bytes where the capacity can grow that
/// far; the bytes stay as they are either way.
pub fn reserve_room(b: &mut BytesMut, additional: usize)
    ensures
        bytes_of(*final(b)) == bytes_of(*old(b)),
{
    let n = buf_len(b);
    if n <= isize::MAX as usize && additional <= isize::MAX as usize - n {
        buf_reserve(b, additional);
    }
}

/// Appends another buffer's bytes.
pub fn buf_append(b: &mut BytesMut, other: &BytesMut)
    requires
        bytes_of(*old(b)).len() + bytes_of(*other).len() <= isize::MAX,
    ensures
        bytes_of(*final(b)) == bytes_of(*old(b)) + bytes_of(*other),
{
    let v = buf_to_vec(other);
    buf_extend(b, v.as_slice());
}

/// Appends `v` in big-endian order.
pub fn buf_put_u32(b: &mut BytesMut, v: u32)
    requires
        bytes_of(*old(b)).len() + 4 <= isize::MAX,
    ensures
        bytes_of(*final(b)) == bytes_of(*old(b)) + u32_be_bytes(v),
{
    buf_put_u8(b, (v >> 24u32) as u8);
    buf_put_u8(b, (v >> 16u32) as u8);
    buf_put_u8(b, (v >> 8u32) as u8);
    buf_put_u8(b, v as u8);
    assert(bytes_of(*b) =~= bytes_of(*old(b)) + u32_be_bytes(v));
}

/// Appends `v` in big-endian order.
pub fn buf_put_u16(b: &mut BytesMut, v: u16)
    requires
        bytes_of(*old(b)).len() + 2 <= isize::MAX,
    ensures
        bytes_of(*final(b)) == bytes_of(*old(b)) + u16_be_bytes(v),
{
    buf_put_u8(b, (v >> 8u16) as u8);
    buf_put_u8(b, v as u8);
    assert(bytes_of(*b) =~= bytes_of(*old(b)) + u16_be_bytes(v));
}

} // verus!
