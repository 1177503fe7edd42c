//! The small inline byte buffer (`tinyvec::TinyVec<[u8; 32]>`) that carries
//! request and reply bytes, seen through the bytes it holds.

use tinyvec::TinyVec;
use vstd::prelude::*;

verus! {

/// A byte buffer that holds up to 32 bytes inline, on `tinyvec::TinyVec<[u8; 32]>`.
/// Only the functions below touch the inner buffer.
#[verifier::external_body]
pub struct Bytes {
    inner: TinyVec<[u8; 32]>,
}

/// The bytes that a buffer holds, in order.
pub uninterp spec fn tiny_bytes(v: Bytes) -> Seq<u8>;

/// Relies on `TinyVec::new`: the new buffer is empty.
#[verifier::external_body]
pub(crate) fn empty_bytes() -> (r: Bytes)
    ensures
        tiny_bytes(r).len() == 0,
{
    Bytes { inner: TinyVec::new() }
}

/// Relies on `TinyVec`'s `FromIterator`: collecting `n` zeros gives `n` zero bytes.
#[verifier::external_body]
pub(crate) fn zeroed_bytes(n: usize) -> (r: Bytes)
    ensures
        tiny_bytes(r) == Seq::new(n as nat, |i: int| 0u8),
{
    Bytes { inner: core::iter::repeat(0u8).take(n).collect() }
}

/// Relies on `TinyVec::resize`: truncates to `n` bytes, or appends copies of `val`.
#[verifier::external_body]
pub(crate) fn resize_bytes(v: &mut Bytes, n: usize, val: u8)
    ensures
        tiny_bytes(*final(v)) == if n <= tiny_bytes(*old(v)).len() {
            tiny_bytes(*old(v)).take(n as int)
        } else {
            tiny_bytes(*old(v)) + Seq::new((n - tiny_bytes(*old(v)).len()) as nat, |i: int| val)
        },
{
    v.inner.resize(n, val)
}

/// Relies on `TinyVec`'s `DerefMut` to a slice: writes one byte in place.
#[verifier::external_body]
pub(crate) fn set_byte(v: &mut Bytes, i: usize, b: u8)
    requires
        i < tiny_bytes(*old(v)).len(),
    ensures
        tiny_bytes(*final(v)) == tiny_bytes(*old(v)).update(i as int, b),
{
    v.inner[i] = b;
}

/// Relies on `TinyVec::as_slice`: a slice over exactly the bytes held.
#[verifier::external_body]
pub(crate) fn bytes_slice(v: &Bytes) -> (r: &[u8])
    ensures
        r@ == tiny_bytes(*v),
{
    v.inner.as_slice()
}

/// Relies on `TinyVec::split_off`: `[0, at)` stays, `[at, len)` is returned.
#[verifier::external_body]
pub(crate) fn split_bytes_off(v: &mut Bytes, at: usize) -> (r: Bytes)
    requires
        at <= tiny_bytes(*old(v)).len(),
    ensures
        tiny_bytes(*final(v)) == tiny_bytes(*old(v)).take(at as int),
        tiny_bytes(r) == tiny_bytes(*old(v)).skip(at as int),
{
    Bytes { inner: v.inner.split_off(at) }
}

/// Relies on `TinyVec::extend_from_slice`: appends a copy of `s`.
#[verifier::external_body]
pub(crate) fn extend_bytes(v: &mut Bytes, s: &[u8])
    ensures
        tiny_bytes(*final(v)) == tiny_bytes(*old(v)) + s@,
{
    v.inner.extend_from_slice(s)
}

/// A buffer holding a copy of `s`.
pub fn bytes_from_slice(s: &[u8]) -> (r: Bytes)
    ensures
        tiny_bytes(r) == s@,
{
    let mut r = zeroed_bytes(s.len());
    let mut i: usize = 0;
    while i < s.len()
        invariant
            i <= s@.len(),
            tiny_bytes(r).len() == s@.len(),
            forall|j: int| 0 <= j < i ==> tiny_bytes(r)[j] == s@[j],
        decreases s@.len() - i,
    {
        set_byte(&mut r, i, s[i]);
        i = i + 1;
    }
    assert(tiny_bytes(r) =~= s@);
    r
}

/// The bytes a buffer holds, as a vector.
pub fn bytes_to_vec(b: &Bytes) -> (r: Vec<u8>)
    ensures
        r@ == tiny_bytes(*b),
{
    let s = bytes_slice(b);
    let mut r: Vec<u8> = Vec::new();
    let mut i: usize = 0;
    while i < s.len()
        invariant
            i <= s@.len(),
            r@ == s@.take(i as int),
        decreases s@.len() - i,
    {
        r.push(s[i]);
        i = i + 1;
        assert(r@ =~= s@.take(i as int));
    }
    assert(s@.take(s@.len() as int) =~= s@);
    r
}

} // verus!
