//! Bounds-checked accessors over a byte buffer: each one returns `None` and
//! leaves the buffer as it was where the input is too short.
use bytes::BytesMut;
use vstd::prelude::*;

use crate::buffer::{
    be_u32, buf_advance, buf_byte, buf_from_slice, buf_to_vec, buf_get_u32, buf_get_u8, buf_len, buf_split_off, buf_split_to,
    bytes_of,
};

verus! {

/// The number of bytes before the first `d` in `s` (all of `s` when there is
/// no `d`).
pub open spec fn prefix_len(s: Seq<u8>, d: u8) -> nat
    decreases s.len(),
{
    if s.len() == 0 {
        0
    } else if s[0] == d {
        0
    } else {
        1 + prefix_len(s.skip(1), d)
    }
}

/// `s` holds no byte `d`.
pub open spec fn free_of(s: Seq<u8>, d: u8) -> bool {
    forall|i: int| 0 <= i < s.len() ==> s[i] != d
}

/// `s` split at its first `d`, the `d` itself dropped; `None` when `s` holds
/// no `d`.
pub open spec fn split_delim(s: Seq<u8>, d: u8) -> Option<(Seq<u8>, Seq<u8>)> {
    let i = prefix_len(s, d);
    if i < s.len() {
        Some((s.take(i as int), s.skip(i + 1int)))
    } else {
        None
    }
}

/// `s` cut at every `d`: the pieces between them, in order.
pub open spec fn split_fields(s: Seq<u8>, d: u8) -> Seq<Seq<u8>>
    decreases s.len(),
{
    match split_delim(s, d) {
        None => seq![s],
        Some((head, rest)) => seq![head] + split_fields(rest, d),
    }
}

/// The first `d` in `s` stands at `i`, or there is none and `i` is the length.
pub proof fn lemma_prefix_len(s: Seq<u8>, d: u8, i: int)
    requires
        0 <= i <= s.len(),
        forall|j: int| 0 <= j < i ==> s[j] != d,
        i == s.len() || s[i] == d,
    ensures
        prefix_len(s, d) == i,
    decreases s.len(),
{
    if s.len() > 0 && s[0] != d {
        lemma_prefix_len(s.skip(1), d, i - 1);
    }
}

/// The first `d` in `a + [d] + b` ends `a`, where `a` holds no `d`.
pub proof fn lemma_split_delim_concat(a: Seq<u8>, d: u8, b: Seq<u8>)
    requires
        free_of(a, d),
    ensures
        split_delim(a.push(d) + b, d) == Some((a, b)),
{
    let s = a.push(d) + b;
    lemma_prefix_len(s, d, a.len() as int);
    assert(s.take(a.len() as int) =~= a);
    assert(s.skip(a.len() + 1int) =~= b);
}

/// Splits at the first `d` in the buffer: the bytes before it are handed out,
/// the bytes after it stay; with no `d` the buffer is left as it is.
pub fn delimited(buffer: &mut BytesMut, delimiter: u8) -> (r: Option<BytesMut>)
    ensures
        match split_delim(bytes_of(*old(buffer)), delimiter) {
            None => r is None && bytes_of(*final(buffer)) == bytes_of(*old(buffer)),
            Some((head, rest)) => r is Some && bytes_of(r->0) == head && bytes_of(*final(buffer))
                == rest,
        },
{
    let n = buf_len(buffer);
    let ghost s = bytes_of(*buffer);
    let mut i: usize = 0;
    while i < n
        invariant
            n == s.len(),
            s == bytes_of(*buffer),
            s == bytes_of(*old(buffer)),
            i <= n,
            forall|j: int| 0 <= j < i ==> s[j] != delimiter,
        decreases n - i,
    {
        if buf_byte(buffer, i) == delimiter {
            proof {
                lemma_prefix_len(s, delimiter, i as int);
            }
            let off = buf_split_to(buffer, i);
            buf_advance(buffer, 1);
            assert(bytes_of(*buffer) =~= s.skip(i + 1));
            assert(split_delim(s, delimiter) == Some((s.take(i as int), s.skip(i + 1))));
            return Some(off);
        }
        i = i + 1;
    }
    proof {
        lemma_prefix_len(s, delimiter, i as int);
    }
    None
}

/// The buffer's bytes cut at every `d`, in order.
pub fn split_fields_of(b: &BytesMut, d: u8) -> (r: Vec<Vec<u8>>)
    ensures
        r@.map_values(|v: Vec<u8>| v@) == split_fields(bytes_of(*b), d),
{
    let mut rest = buf_from_slice(buf_to_vec(b).as_slice());
    let mut out: Vec<Vec<u8>> = Vec::new();
    loop
        invariant
            split_fields(bytes_of(*b), d) == out@.map_values(|v: Vec<u8>| v@) + split_fields(
                bytes_of(rest),
                d,
            ),
        decreases bytes_of(rest).len(),
    {
        let ghost cur = bytes_of(rest);
        let ghost prev = out@;
        match delimited(&mut rest, d) {
            Some(head) => {
                let field = buf_to_vec(&head);
                out.push(field);
                proof {
                    assert(out@.map_values(|v: Vec<u8>| v@) =~= prev.map_values(|v: Vec<u8>| v@).push(
                        field@,
                    ));
                    assert(prev.map_values(|v: Vec<u8>| v@) + split_fields(cur, d) =~= out@.map_values(
                        |v: Vec<u8>| v@,
                    ) + split_fields(bytes_of(rest), d));
                }
            },
            None => {
                let field = buf_to_vec(&rest);
                out.push(field);
                proof {
                    assert(out@.map_values(|v: Vec<u8>| v@) =~= prev.map_values(|v: Vec<u8>| v@).push(
                        field@,
                    ));
                    assert(prev.map_values(|v: Vec<u8>| v@) + split_fields(cur, d) =~= out@.map_values(
                        |v: Vec<u8>| v@,
                    ));
                }
                return out;
            },
        }
    }
}

/// The first `at` bytes, or `None` when the buffer holds fewer.
pub fn safe_split_to(buffer: &mut BytesMut, at: usize) -> (r: Option<BytesMut>)
    ensures
        if at <= bytes_of(*old(buffer)).len() {
            r is Some && bytes_of(r->0) == bytes_of(*old(buffer)).take(at as int) && bytes_of(
                *final(buffer),
            ) == bytes_of(*old(buffer)).skip(at as int)
        } else {
            r is None && bytes_of(*final(buffer)) == bytes_of(*old(buffer))
        },
{
    if at > buf_len(buffer) {
        return None;
    }
    Some(buf_split_to(buffer, at))
}

/// The bytes from `at` on, or `None` when the buffer holds fewer than `at`.
pub fn safe_split_off(buffer: &mut BytesMut, at: usize) -> (r: Option<BytesMut>)
    ensures
        if at <= bytes_of(*old(buffer)).len() {
            r is Some && bytes_of(r->0) == bytes_of(*old(buffer)).skip(at as int) && bytes_of(
                *final(buffer),
            ) == bytes_of(*old(buffer)).take(at as int)
        } else {
            r is None && bytes_of(*final(buffer)) == bytes_of(*old(buffer))
        },
{
    if at > buf_len(buffer) {
        return None;
    }
    Some(buf_split_off(buffer, at))
}

/// The first byte, consumed; `None` on an empty buffer.
pub fn safe_get_u8(buffer: &mut BytesMut) -> (r: Option<u8>)
    ensures
        if bytes_of(*old(buffer)).len() >= 1 {
            r == Some(bytes_of(*old(buffer))[0]) && bytes_of(*final(buffer)) == bytes_of(
                *old(buffer),
            ).skip(1)
        } else {
            r is None && bytes_of(*final(buffer)) == bytes_of(*old(buffer))
        },
{
    if buf_len(buffer) == 0 {
        return None;
    }
    Some(buf_get_u8(buffer))
}

/// The first four bytes as a big-endian `u32`, consumed; `None` when fewer
/// than four are held.
pub fn safe_get_u32(buffer: &mut BytesMut) -> (r: Option<u32>)
    ensures
        if bytes_of(*old(buffer)).len() >= 4 {
            r is Some && r->0 == be_u32(bytes_of(*old(buffer))) && bytes_of(*final(buffer))
                == bytes_of(*old(buffer)).skip(4)
        } else {
            r is None && bytes_of(*final(buffer)) == bytes_of(*old(buffer))
        },
{
    if buf_len(buffer) < 4 {
        return None;
    }
    Some(buf_get_u32(buffer))
}

} // verus!
