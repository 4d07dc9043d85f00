//! Byte-level primitives shared by every packet codec: the two byte orders
//! the wire format mixes, and helpers that append to or read from a byte
//! buffer together with their mathematical descriptions.

use vstd::prelude::*;

verus! {

/// A run of `n` zero bytes, used for the format's pad and spare fields.
pub open spec fn zero_bytes(n: nat) -> Seq<u8> {
    Seq::new(n, |i: int| 0u8)
}

/// Little-endian image of a 16-bit value: low byte first.
pub open spec fn le16(v: u16) -> Seq<u8> {
    seq![(v % 256) as u8, (v / 256) as u8]
}

/// Big-endian image of a 16-bit value: high byte first.
pub open spec fn be16(v: u16) -> Seq<u8> {
    seq![(v / 256) as u8, (v % 256) as u8]
}

/// Big-endian image of a 32-bit value: highest byte first.
pub open spec fn be32(v: u32) -> Seq<u8> {
    be16((v / 0x10000) as u16) + be16((v % 0x10000) as u16)
}

/// The 16-bit value whose little-endian image is `[b0, b1]`.
pub open spec fn u16_le(b0: u8, b1: u8) -> u16 {
    (b0 + 256 * (b1 as int)) as u16
}

/// The 16-bit value whose big-endian image is `[b0, b1]`.
pub open spec fn u16_be(b0: u8, b1: u8) -> u16 {
    (256 * (b0 as int) + b1) as u16
}

/// The 32-bit value whose big-endian image is `[b0, b1, b2, b3]`.
pub open spec fn u32_be(b0: u8, b1: u8, b2: u8, b3: u8) -> u32 {
    (0x1000000 * (b0 as int) + 0x10000 * (b1 as int) + 256 * (b2 as int) + b3) as u32
}

/// The value read when a little-endian image is mistaken for big-endian:
/// the two bytes exchanged.
pub open spec fn swap16(v: u16) -> u16 {
    ((v % 256) * 256 + v / 256) as u16
}

/// Reading a little-endian image big-endian yields the byte-swapped value.
pub proof fn lemma_le16_read_be(v: u16)
    ensures
        u16_be(le16(v)[0], le16(v)[1]) == swap16(v),
{
}

/// Reading back the little-endian image of a value yields the value.
pub proof fn lemma_le16_roundtrip(v: u16)
    ensures
        u16_le(le16(v)[0], le16(v)[1]) == v,
{
}

/// Reading back the big-endian image of a 16-bit value yields the value.
pub proof fn lemma_be16_roundtrip(v: u16)
    ensures
        u16_be(be16(v)[0], be16(v)[1]) == v,
{
}

/// Reading back the big-endian image of a 32-bit value yields the value.
pub proof fn lemma_be32_roundtrip(v: u32)
    ensures
        u32_be(be32(v)[0], be32(v)[1], be32(v)[2], be32(v)[3]) == v,
{
    lemma_be16_roundtrip((v / 0x10000) as u16);
    lemma_be16_roundtrip((v % 0x10000) as u16);
}

/// Appends the little-endian image of `v`.
pub fn push_u16_le(out: &mut Vec<u8>, v: u16)
    ensures
        final(out)@ == old(out)@ + le16(v),
{
    out.push((v % 256) as u8);
    out.push((v / 256) as u8);
    assert(out@ =~= old(out)@ + le16(v));
}

/// Appends the big-endian image of `v`.
pub fn push_u16_be(out: &mut Vec<u8>, v: u16)
    ensures
        final(out)@ == old(out)@ + be16(v),
{
    out.push((v / 256) as u8);
    out.push((v % 256) as u8);
    assert(out@ =~= old(out)@ + be16(v));
}

/// Appends the big-endian image of a 32-bit `v`.
pub fn push_u32_be(out: &mut Vec<u8>, v: u32)
    ensures
        final(out)@ == old(out)@ + be32(v),
{
    push_u16_be(out, (v / 0x10000) as u16);
    push_u16_be(out, (v % 0x10000) as u16);
    assert(out@ =~= old(out)@ + be32(v));
}

/// Appends every byte of `src`.
pub fn push_slice(out: &mut Vec<u8>, src: &[u8])
    ensures
        final(out)@ == old(out)@ + src@,
{
    let n: usize = src.len();
    let mut i: usize = 0;
    while i < n
        invariant
            i <= n,
            n == src@.len(),
            out@ == old(out)@ + src@.take(i as int),
        decreases n - i,
    {
        out.push(src[i]);
        assert(out@ =~= old(out)@ + src@.take(i + 1));
        i = i + 1;
    }
    assert(src@.take(n as int) =~= src@);
}

/// Appends `n` zero bytes.
pub fn push_zeros(out: &mut Vec<u8>, n: usize)
    ensures
        final(out)@ == old(out)@ + zero_bytes(n as nat),
{
    let mut i: usize = 0;
    while i < n
        invariant
            i <= n,
            out@ == old(out)@ + zero_bytes(i as nat),
        decreases n - i,
    {
        out.push(0u8);
        assert(out@ =~= old(out)@ + zero_bytes((i + 1) as nat));
        i = i + 1;
    }
}

/// Reads the 16-bit value stored little-endian at `off`.
pub fn read_u16_le(data: &Vec<u8>, off: usize) -> (r: u16)
    requires
        off + 2 <= data@.len(),
    ensures
        r == u16_le(data@[off as int], data@[off as int + 1]),
{
    let _n: usize = data.len();
    let b0: u8 = data[off];
    let b1: u8 = data[off + 1];
    b0 as u16 + 256 * (b1 as u16)
}

/// Reads the 16-bit value stored big-endian at `off`.
pub fn read_u16_be(data: &Vec<u8>, off: usize) -> (r: u16)
    requires
        off + 2 <= data@.len(),
    ensures
        r == u16_be(data@[off as int], data@[off as int + 1]),
{
    let _n: usize = data.len();
    let b0: u8 = data[off];
    let b1: u8 = data[off + 1];
    256 * (b0 as u16) + b1 as u16
}

/// Reads the 32-bit value stored big-endian at `off`.
pub fn read_u32_be(data: &Vec<u8>, off: usize) -> (r: u32)
    requires
        off + 4 <= data@.len(),
    ensures
        r == u32_be(
            data@[off as int],
            data@[off as int + 1],
            data@[off as int + 2],
            data@[off as int + 3],
        ),
{
    let _n: usize = data.len();
    let b0: u8 = data[off];
    let b1: u8 = data[off + 1];
    let b2: u8 = data[off + 2];
    let b3: u8 = data[off + 3];
    0x1000000 * (b0 as u32) + 0x10000 * (b1 as u32) + 256 * (b2 as u32) + b3 as u32
}

/// Copies out the `n` bytes starting at `off`.
pub fn read_bytes(data: &Vec<u8>, off: usize, n: usize) -> (r: Vec<u8>)
    requires
        off + n <= data@.len(),
    ensures
        r@ == data@.subrange(off as int, off as int + n as int),
{
    let n_data: usize = data.len();
    let mut r: Vec<u8> = Vec::new();
    let mut i: usize = 0;
    while i < n
        invariant
            i <= n,
            off + n <= n_data,
            n_data == data@.len(),
            r@ == data@.subrange(off as int, off as int + i as int),
        decreases n - i,
    {
        r.push(data[off + i]);
        assert(r@ =~= data@.subrange(off as int, off as int + i as int + 1));
        i = i + 1;
    }
    r
}

/// Copies the `N` bytes starting at `off` into a fixed-size array.
pub fn read_array<const N: usize>(data: &Vec<u8>, off: usize) -> (r: [u8; N])
    requires
        off + N <= data@.len(),
    ensures
        r@ == data@.subrange(off as int, off as int + N as int),
{
    let n_data: usize = data.len();
    let mut r: [u8; N] = [0u8; N];
    let mut i: usize = 0;
    while i < N
        invariant
            i <= N,
            off + N <= n_data,
            n_data == data@.len(),
            r@.len() == N,
            forall|j: int| 0 <= j < i ==> r@[j] == data@[off + j],
        decreases N - i,
    {
        r[i] = data[off + i];
        i = i + 1;
    }
    assert(r@ =~= data@.subrange(off as int, off as int + N as int));
    r
}

/// Appends every byte of a fixed-size array.
pub fn push_array<const N: usize>(out: &mut Vec<u8>, a: &[u8; N])
    ensures
        final(out)@ == old(out)@ + a@,
{
    push_slice(out, a.as_slice());
}

} // verus!
