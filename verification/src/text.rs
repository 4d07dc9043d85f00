//! Fixed-width zero-padded text fields. A name lives inside a fixed-size
//! buffer whose last byte is reserved as a terminating zero: writing packs
//! the text's bytes at the front, truncated to the usable capacity, and
//! reading takes the prefix before the first zero byte. Turning those bytes
//! into displayable text is the one step delegated to the standard library.

use vstd::prelude::*;
use crate::wire::push_zeros;
use crate::wire::read_bytes;
use crate::wire::zero_bytes;

verus! {

/// The `width`-byte buffer that a text field `s` is packed into: the text's
/// bytes, truncated to `width - 1` (one byte is reserved for a terminating
/// zero), followed by zero padding up to `width`.
pub open spec fn pack_text(s: Seq<u8>, width: nat) -> Seq<u8>
    recommends
        width >= 1,
{
    if s.len() <= width - 1 {
        s + zero_bytes((width - s.len()) as nat)
    } else {
        s.take(width - 1) + zero_bytes(1)
    }
}

/// The number of bytes before the first zero byte of `buf` (all of `buf` if
/// it has no zero byte).
pub open spec fn text_len(buf: Seq<u8>) -> nat
    decreases buf.len(),
{
    if buf.len() == 0 {
        0
    } else if buf[0] == 0 {
        0
    } else {
        (1 + text_len(buf.subrange(1, buf.len() as int))) as nat
    }
}

/// The meaningful text of a zero-padded buffer: its prefix before the first
/// zero byte.
pub open spec fn text_of(buf: Seq<u8>) -> Seq<u8> {
    buf.take(text_len(buf) as int)
}

/// `text_len` is the position of the first zero byte: if the first `k` bytes
/// are nonzero and byte `k` (if any) is zero, then `text_len` is `k`.
pub proof fn lemma_text_len_at(buf: Seq<u8>, k: int)
    requires
        0 <= k <= buf.len(),
        forall|i: int| 0 <= i < k ==> buf[i] != 0,
        k < buf.len() ==> buf[k] == 0,
    ensures
        text_len(buf) == k,
    decreases buf.len(),
{
    if k == 0 {
    } else {
        let tail = buf.subrange(1, buf.len() as int);
        assert(forall|i: int| 0 <= i < k - 1 ==> tail[i] == buf[i + 1] && tail[i] != 0);
        lemma_text_len_at(tail, k - 1);
    }
}

/// Packing always fills exactly `width` bytes and always leaves the reserved
/// final byte zero.
pub proof fn lemma_pack_text_width(s: Seq<u8>, width: nat)
    requires
        width >= 1,
    ensures
        pack_text(s, width).len() == width,
        pack_text(s, width)[width - 1] == 0,
{
}

/// The truncation law: packing a text no longer than the usable capacity
/// `width - 1` preserves it whole, and packing a longer one preserves
/// exactly the prefix of `width - 1` bytes; the rest of the buffer is zero.
pub proof fn lemma_pack_text_truncates(s: Seq<u8>, width: nat)
    requires
        width >= 1,
    ensures
        s.len() <= width - 1 ==> pack_text(s, width).take(s.len() as int) == s,
        s.len() > width - 1 ==> pack_text(s, width).take(width - 1) == s.take(width - 1),
        forall|i: int|
            s.len() <= i < width && i < pack_text(s, width).len() ==> pack_text(s, width)[i] == 0,
{
    if s.len() <= width - 1 {
        assert(pack_text(s, width).take(s.len() as int) =~= s);
    } else {
        assert(pack_text(s, width).take(width - 1) =~= s.take(width - 1));
    }
}

/// Reading back a packed text yields the packed prefix, provided the text
/// has no zero byte of its own before the truncation point.
pub proof fn lemma_pack_text_roundtrip(s: Seq<u8>, width: nat)
    requires
        width >= 1,
        forall|i: int| 0 <= i < s.len() ==> s[i] != 0,
    ensures
        s.len() <= width - 1 ==> text_of(pack_text(s, width)) == s,
        s.len() > width - 1 ==> text_of(pack_text(s, width)) == s.take(width - 1),
{
    let p = pack_text(s, width);
    if s.len() <= width - 1 {
        lemma_text_len_at(p, s.len() as int);
        assert(text_of(p) =~= s);
    } else {
        assert(forall|i: int| 0 <= i < width - 1 ==> p[i] == s[i] && p[i] != 0);
        lemma_text_len_at(p, width - 1);
        assert(text_of(p) =~= s.take(width - 1));
    }
}

/// Appends `pack_text(s, width)`: up to `width - 1` bytes of `s`, then zero
/// padding to `width`.
pub fn push_text_padded(out: &mut Vec<u8>, s: &Vec<u8>, width: usize)
    requires
        width >= 1,
    ensures
        final(out)@ == old(out)@ + pack_text(s@, width as nat),
{
    let usable: usize = width - 1;
    let k: usize = if s.len() <= usable {
        s.len()
    } else {
        usable
    };
    let mut i: usize = 0;
    while i < k
        invariant
            i <= k,
            k <= s@.len(),
            out@ == old(out)@ + s@.take(i as int),
        decreases k - i,
    {
        out.push(s[i]);
        assert(out@ =~= old(out)@ + s@.take(i + 1));
        i = i + 1;
    }
    push_zeros(out, width - k);
    assert(out@ =~= old(out)@ + pack_text(s@, width as nat));
}

/// Copies the prefix of `buf` before its first zero byte (all of `buf` if
/// no byte is zero).
pub fn text_prefix(buf: &Vec<u8>) -> (r: Vec<u8>)
    ensures
        r@ == text_of(buf@),
{
    let n: usize = buf.len();
    let mut k: usize = 0;
    while k < n && buf[k] != 0
        invariant
            k <= n,
            n == buf@.len(),
            forall|i: int| 0 <= i < k ==> buf@[i] != 0,
        decreases n - k,
    {
        k = k + 1;
    }
    proof {
        lemma_text_len_at(buf@, k as int);
    }
    let r: Vec<u8> = read_bytes(buf, 0, k);
    assert(r@ =~= text_of(buf@));
    r
}

/// What `String::from_utf8_lossy` makes of a byte sequence: its UTF-8
/// decoding, with invalid sequences replaced by the replacement character.
pub uninterp spec fn utf8_lossy(bytes: Seq<u8>) -> Seq<char>;

/// Relies on `String::from_utf8_lossy`: the result is a function of the
/// bytes alone; an ASCII byte sequence decodes to the same characters,
/// one per byte.
#[verifier::external_body]
pub(crate) fn lossy_string(bytes: &Vec<u8>) -> (r: String)
    ensures
        r@ == utf8_lossy(bytes@),
        (forall|i: int| 0 <= i < bytes@.len() ==> bytes@[i] < 0x80) ==> r@ == Seq::new(
            bytes@.len(),
            |i: int| bytes@[i] as char,
        ),
{
    String::from_utf8_lossy(bytes.as_slice()).to_string()
}

} // verus!
