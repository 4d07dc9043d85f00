//! The ArtDmx packet: one universe's worth of channel data. After the
//! preamble and version come the sequence number, the physical input port,
//! the 16-bit universe (little-endian), the 16-bit channel count
//! (big-endian), and then exactly that many data bytes.

use vstd::prelude::*;
use crate::opcode::OP_DMX;
use crate::opcode::PROT_VER_LO;
use crate::opcode::header_bytes;
use crate::opcode::push_preamble;
use crate::wire::be16;
use crate::wire::le16;
use crate::wire::push_slice;
use crate::wire::push_u16_be;
use crate::wire::push_u16_le;
use crate::wire::read_bytes;
use crate::wire::read_u16_be;
use crate::wire::read_u16_le;
use crate::wire::u16_be;
use crate::wire::u16_le;

verus! {

/// An ArtDmx packet.
#[derive(Debug, Clone, PartialEq, Eq)]
pub struct OpDmx {
    pub sequence: u8,
    pub physical: u8,
    pub universe: u16,
    pub length: u16,
    pub data: Vec<u8>,
}

/// The mathematical image of an ArtDmx packet.
#[verifier::ext_equal]
pub struct OpDmxView {
    pub sequence: u8,
    pub physical: u8,
    pub universe: u16,
    pub length: u16,
    pub data: Seq<u8>,
}

impl View for OpDmx {
    type V = OpDmxView;

    open spec fn view(&self) -> OpDmxView {
        OpDmxView {
            sequence: self.sequence,
            physical: self.physical,
            universe: self.universe,
            length: self.length,
            data: self.data@,
        }
    }
}

impl OpDmxView {
    /// The length field is authoritative for the tail: a packet is
    /// well-formed when the two agree.
    pub open spec fn wf(self) -> bool {
        self.length as nat == self.data.len()
    }

    /// The wire image: preamble, protocol version, sequence, physical,
    /// universe little-endian, channel count big-endian, then the channel
    /// data.
    pub open spec fn spec_serialize(self) -> Seq<u8> {
        header_bytes() + le16(OP_DMX) + seq![0u8, PROT_VER_LO, self.sequence, self.physical]
            + le16(self.universe) + be16(self.length) + self.data
    }

    /// The packet a buffer decodes to: the fixed fields must be present,
    /// and the buffer must hold at least as many tail bytes as the count
    /// field claims; exactly that many are taken, and any bytes beyond
    /// them are ignored. The preamble is not examined here; the envelope
    /// validates it first.
    pub open spec fn spec_deserialize(data: Seq<u8>) -> Option<OpDmxView> {
        if data.len() < 18 {
            None
        } else {
            let n = u16_be(data[16], data[17]);
            if data.len() < 18 + n {
                None
            } else {
                Some(
                    OpDmxView {
                        sequence: data[12],
                        physical: data[13],
                        universe: u16_le(data[14], data[15]),
                        length: n,
                        data: data.subrange(18, 18 + n as int),
                    },
                )
            }
        }
    }
}

impl OpDmx {
    /// A fresh packet with all fields zero and an empty tail.
    pub fn new() -> (r: OpDmx)
        ensures
            r@ == (OpDmxView {
                sequence: 0,
                physical: 0,
                universe: 0,
                length: 0,
                data: Seq::<u8>::empty(),
            }),
    {
        let r = OpDmx { sequence: 0, physical: 0, universe: 0, length: 0, data: Vec::new() };
        assert(r@ =~= (OpDmxView {
            sequence: 0,
            physical: 0,
            universe: 0,
            length: 0,
            data: Seq::<u8>::empty(),
        }));
        r
    }

    /// Encodes the packet as its wire image. The count field governs the
    /// tail, so the caller keeps the two in agreement.
    pub fn serialize(&self) -> (r: Vec<u8>)
        requires
            self@.wf(),
        ensures
            r@ == self@.spec_serialize(),
    {
        let mut out: Vec<u8> = Vec::new();
        push_preamble(&mut out, OP_DMX);
        out.push(0u8);
        out.push(PROT_VER_LO);
        out.push(self.sequence);
        out.push(self.physical);
        push_u16_le(&mut out, self.universe);
        push_u16_be(&mut out, self.length);
        push_slice(&mut out, self.data.as_slice());
        assert(out@ =~= self@.spec_serialize());
        out
    }

    /// Decodes a buffer whose preamble the envelope has already validated.
    pub fn deserialize(data: &Vec<u8>) -> (r: Option<OpDmx>)
        ensures
            (r is Some) == (OpDmxView::spec_deserialize(data@) is Some),
            r matches Some(p) ==> Some(p@) == OpDmxView::spec_deserialize(data@) && p@.wf(),
    {
        let n_data: usize = data.len();
        if n_data < 18 {
            return None;
        }
        let length: u16 = read_u16_be(data, 16);
        if n_data - 18 < length as usize {
            return None;
        }
        let tail: Vec<u8> = read_bytes(data, 18, length as usize);
        let r = OpDmx {
            sequence: data[12],
            physical: data[13],
            universe: read_u16_le(data, 14),
            length,
            data: tail,
        };
        assert(r@ =~= OpDmxView::spec_deserialize(data@).unwrap());
        Some(r)
    }
}

/// Decoding the wire image of any well-formed ArtDmx packet yields the
/// packet.
pub proof fn lemma_dmx_roundtrip(p: OpDmxView)
    requires
        p.wf(),
    ensures
        OpDmxView::spec_deserialize(p.spec_serialize()) == Some(p),
{
    let s = p.spec_serialize();
    assert(s.len() == 18 + p.data.len());
    crate::wire::lemma_be16_roundtrip(p.length);
    crate::wire::lemma_le16_roundtrip(p.universe);
    assert(s[16] == be16(p.length)[0] && s[17] == be16(p.length)[1]);
    assert(s[14] == le16(p.universe)[0] && s[15] == le16(p.universe)[1]);
    assert(s.subrange(18, 18 + p.length as int) =~= p.data);
    assert(OpDmxView::spec_deserialize(s).unwrap() =~= p);
}

/// The count field is authoritative: decoding succeeds exactly when the
/// buffer holds the fixed fields and at least `n` tail bytes, where `n` is
/// the count it carries, and the decoded tail then has length `n`.
pub proof fn lemma_dmx_tail_count(data: Seq<u8>)
    ensures
        (OpDmxView::spec_deserialize(data) is Some) <==> (data.len() >= 18 && data.len() >= 18
            + u16_be(data[16], data[17])),
        OpDmxView::spec_deserialize(data) matches Some(p) ==> p.length == u16_be(
            data[16],
            data[17],
        ) && p.data.len() == u16_be(data[16], data[17]),
{
}

} // verus!
