//! Little-endian integers and the compact-size length prefix of the
//! transaction serialization.

use vstd::prelude::*;

verus! {

/// The four little-endian bytes of `x`.
pub open spec fn u32_le(x: u32) -> Seq<u8> {
    seq![
        (x & 0xff) as u8,
        ((x >> 8u32) & 0xff) as u8,
        ((x >> 16u32) & 0xff) as u8,
        ((x >> 24u32) & 0xff) as u8,
    ]
}

/// The two little-endian bytes of `x`.
pub open spec fn u16_le(x: u16) -> Seq<u8> {
    seq![(x & 0xff) as u8, ((x >> 8u16) & 0xff) as u8]
}

/// The eight little-endian bytes of `x`.
pub open spec fn u64_le(x: u64) -> Seq<u8> {
    seq![
        (x & 0xff) as u8,
        ((x >> 8u64) & 0xff) as u8,
        ((x >> 16u64) & 0xff) as u8,
        ((x >> 24u64) & 0xff) as u8,
        ((x >> 32u64) & 0xff) as u8,
        ((x >> 40u64) & 0xff) as u8,
        ((x >> 48u64) & 0xff) as u8,
        ((x >> 56u64) & 0xff) as u8,
    ]
}

/// The compact-size encoding of `n`: one byte below 0xfd, else a marker
/// byte followed by the little-endian value in 2, 4 or 8 bytes.
pub open spec fn compact_size(n: u64) -> Seq<u8> {
    if n < 0xfd {
        seq![n as u8]
    } else if n <= 0xffff {
        seq![0xfdu8] + u16_le(n as u16)
    } else if n <= 0xffff_ffff {
        seq![0xfeu8] + u32_le(n as u32)
    } else {
        seq![0xffu8] + u64_le(n)
    }
}

/// Appends the bytes of `data` to `buf`.
pub fn push_bytes(buf: &mut Vec<u8>, data: &[u8])
    ensures
        final(buf)@ == old(buf)@ + data@,
{
    let mut i: usize = 0;
    while i < data.len()
        invariant
            i <= data@.len(),
            buf@ == old(buf)@ + data@.subrange(0, i as int),
        decreases data@.len() - i,
    {
        buf.push(data[i]);
        i = i + 1;
        assert(data@.subrange(0, i as int) =~= data@.subrange(0, i - 1) + seq![data@[i - 1]]);
    }
    assert(data@.subrange(0, data@.len() as int) =~= data@);
}

/// Appends the little-endian bytes of `x` to `buf`.
pub fn push_u16_le(buf: &mut Vec<u8>, x: u16)
    ensures
        final(buf)@ == old(buf)@ + u16_le(x),
{
    buf.push((x & 0xff) as u8);
    buf.push(((x >> 8u16) & 0xff) as u8);
    assert(buf@ =~= old(buf)@ + u16_le(x));
}

/// Appends the little-endian bytes of `x` to `buf`.
pub fn push_u32_le(buf: &mut Vec<u8>, x: u32)
    ensures
        final(buf)@ == old(buf)@ + u32_le(x),
{
    buf.push((x & 0xff) as u8);
    buf.push(((x >> 8u32) & 0xff) as u8);
    buf.push(((x >> 16u32) & 0xff) as u8);
    buf.push(((x >> 24u32) & 0xff) as u8);
    assert(buf@ =~= old(buf)@ + u32_le(x));
}

/// Appends the little-endian bytes of `x` to `buf`.
pub fn push_u64_le(buf: &mut Vec<u8>, x: u64)
    ensures
        final(buf)@ == old(buf)@ + u64_le(x),
{
    buf.push((x & 0xff) as u8);
    buf.push(((x >> 8u64) & 0xff) as u8);
    buf.push(((x >> 16u64) & 0xff) as u8);
    buf.push(((x >> 24u64) & 0xff) as u8);
    buf.push(((x >> 32u64) & 0xff) as u8);
    buf.push(((x >> 40u64) & 0xff) as u8);
    buf.push(((x >> 48u64) & 0xff) as u8);
    buf.push(((x >> 56u64) & 0xff) as u8);
    assert(buf@ =~= old(buf)@ + u64_le(x));
}

/// Appends the compact-size encoding of `n` to `buf`.
pub fn push_compact_size(buf: &mut Vec<u8>, n: u64)
    ensures
        final(buf)@ == old(buf)@ + compact_size(n),
{
    if n < 0xfd {
        buf.push(n as u8);
        assert(buf@ =~= old(buf)@ + compact_size(n));
    } else if n <= 0xffff {
        buf.push(0xfdu8);
        push_u16_le(buf, n as u16);
        assert(buf@ =~= old(buf)@ + compact_size(n));
    } else if n <= 0xffff_ffff {
        buf.push(0xfeu8);
        push_u32_le(buf, n as u32);
        assert(buf@ =~= old(buf)@ + compact_size(n));
    } else {
        buf.push(0xffu8);
        push_u64_le(buf, n);
        assert(buf@ =~= old(buf)@ + compact_size(n));
    }
}

} // verus!
