//! The 48-bit RDM device identifier: a 16-bit manufacturer id and a 32-bit
//! device id, carried on the wire as six raw bytes, both halves big-endian.

use vstd::prelude::*;
use crate::wire::be16;
use crate::wire::be32;
use crate::wire::push_u16_be;
use crate::wire::push_u32_be;
use crate::wire::read_u16_be;
use crate::wire::read_u32_be;
use crate::wire::u16_be;
use crate::wire::u32_be;

verus! {

/// A 48-bit RDM device identifier.
#[derive(Debug, Clone, Copy, PartialEq, Eq, Structural)]
pub struct Uid {
    pub mfg: u16,
    pub dev: u32,
}

impl Uid {
    /// A fresh identifier with the given manufacturer and device ids.
    pub fn new(mfg: u16, dev: u32) -> (r: Uid)
        ensures
            r == (Uid { mfg, dev }),
    {
        Uid { mfg, dev }
    }

    /// The six-byte wire image: manufacturer id then device id, big-endian.
    pub open spec fn spec_bytes(self) -> Seq<u8> {
        be16(self.mfg) + be32(self.dev)
    }

    /// The identifier whose six-byte wire image is `b`.
    pub open spec fn spec_from_bytes(b: Seq<u8>) -> Uid
        recommends
            b.len() == 6,
    {
        Uid { mfg: u16_be(b[0], b[1]), dev: u32_be(b[2], b[3], b[4], b[5]) }
    }

    /// Encodes the identifier as its six raw wire bytes.
    pub fn to_bytes(&self) -> (r: Vec<u8>)
        ensures
            r@ == self.spec_bytes(),
    {
        let mut r: Vec<u8> = Vec::new();
        push_u16_be(&mut r, self.mfg);
        push_u32_be(&mut r, self.dev);
        assert(r@ =~= self.spec_bytes());
        r
    }

    /// Reads the identifier stored at `off` in `data` as six raw bytes.
    pub fn from_bytes_at(data: &Vec<u8>, off: usize) -> (r: Uid)
        requires
            off + 6 <= data@.len(),
        ensures
            r == Uid::spec_from_bytes(data@.subrange(off as int, off as int + 6)),
    {
        let _n: usize = data.len();
        let mfg: u16 = read_u16_be(data, off);
        let dev: u32 = read_u32_be(data, off + 2);
        let r = Uid { mfg, dev };
        proof {
            let b = data@.subrange(off as int, off as int + 6);
            assert(b[0] == data@[off as int] && b[1] == data@[off as int + 1]);
            assert(b[2] == data@[off as int + 2] && b[3] == data@[off as int + 3]);
            assert(b[4] == data@[off as int + 4] && b[5] == data@[off as int + 5]);
        }
        r
    }

    /// Decodes an identifier from its six raw wire bytes.
    pub fn from_bytes(b: &Vec<u8>) -> (r: Uid)
        requires
            b@.len() == 6,
        ensures
            r == Uid::spec_from_bytes(b@),
    {
        let r = Uid::from_bytes_at(b, 0);
        assert(b@.subrange(0, 6) =~= b@);
        r
    }
}

/// The identifier stored as six raw bytes at `off` in `data`.
pub open spec fn uid_at(data: Seq<u8>, off: int) -> Uid {
    Uid::spec_from_bytes(data.subrange(off, off + 6))
}

/// Decoding the wire image of an identifier yields the identifier.
pub proof fn lemma_uid_roundtrip(u: Uid)
    ensures
        Uid::spec_from_bytes(u.spec_bytes()) == u,
{
    crate::wire::lemma_be16_roundtrip(u.mfg);
    crate::wire::lemma_be32_roundtrip(u.dev);
}

} // verus!
