//! The ArtCommand packet: a free-form text command addressed to a
//! manufacturer. After the preamble and version come the 16-bit ESTA
//! manufacturer code and the 16-bit payload length, both big-endian, then
//! exactly that many payload bytes.

use vstd::prelude::*;
use crate::opcode::OP_COMMAND;
use crate::opcode::PROT_VER_LO;
use crate::opcode::header_bytes;
use crate::opcode::push_preamble;
use crate::wire::be16;
use crate::wire::le16;
use crate::wire::push_slice;
use crate::wire::push_u16_be;
use crate::wire::read_bytes;
use crate::wire::read_u16_be;
use crate::wire::u16_be;

verus! {

/// An ArtCommand packet.
#[derive(Debug, Clone, PartialEq, Eq)]
pub struct OpCommand {
    pub esta_mfg: u16,
    pub length: u16,
    pub data: Vec<u8>,
}

/// The mathematical image of an ArtCommand packet.
#[verifier::ext_equal]
pub struct OpCommandView {
    pub esta_mfg: u16,
    pub length: u16,
    pub data: Seq<u8>,
}

impl View for OpCommand {
    type V = OpCommandView;

    open spec fn view(&self) -> OpCommandView {
        OpCommandView { esta_mfg: self.esta_mfg, length: self.length, data: self.data@ }
    }
}

impl OpCommandView {
    /// The length field is authoritative for the payload: a packet is
    /// well-formed when the two agree.
    pub open spec fn wf(self) -> bool {
        self.length as nat == self.data.len()
    }

    /// The wire image: preamble, protocol version, manufacturer code and
    /// payload length big-endian, then the payload.
    pub open spec fn spec_serialize(self) -> Seq<u8> {
        header_bytes() + le16(OP_COMMAND) + seq![0u8, PROT_VER_LO] + be16(self.esta_mfg) + be16(
            self.length,
        ) + self.data
    }

    /// The packet a buffer decodes to: the fixed fields must be present,
    /// and the buffer must hold at least as many payload bytes as the
    /// length field claims; exactly that many are taken, and any bytes
    /// beyond them are ignored. The preamble is not examined here; the
    /// envelope validates it first.
    pub open spec fn spec_deserialize(data: Seq<u8>) -> Option<OpCommandView> {
        if data.len() < 16 {
            None
        } else {
            let n = u16_be(data[14], data[15]);
            if data.len() < 16 + n {
                None
            } else {
                Some(
                    OpCommandView {
                        esta_mfg: u16_be(data[12], data[13]),
                        length: n,
                        data: data.subrange(16, 16 + n as int),
                    },
                )
            }
        }
    }
}

impl OpCommand {
    /// A fresh packet with all fields zero and an empty payload.
    pub fn new() -> (r: OpCommand)
        ensures
            r@ == (OpCommandView { esta_mfg: 0, length: 0, data: Seq::<u8>::empty() }),
    {
        let r = OpCommand { esta_mfg: 0, length: 0, data: Vec::new() };
        assert(r@ =~= (OpCommandView { esta_mfg: 0, length: 0, data: Seq::<u8>::empty() }));
        r
    }

    /// Encodes the packet as its wire image. The length field governs the
    /// payload, so the caller keeps the two in agreement.
    pub fn serialize(&self) -> (r: Vec<u8>)
        requires
            self@.wf(),
        ensures
            r@ == self@.spec_serialize(),
    {
        let mut out: Vec<u8> = Vec::new();
        push_preamble(&mut out, OP_COMMAND);
        out.push(0u8);
        out.push(PROT_VER_LO);
        push_u16_be(&mut out, self.esta_mfg);
        push_u16_be(&mut out, self.length);
        push_slice(&mut out, self.data.as_slice());
        assert(out@ =~= self@.spec_serialize());
        out
    }

    /// Decodes a buffer whose preamble the envelope has already validated.
    pub fn deserialize(data: &Vec<u8>) -> (r: Option<OpCommand>)
        ensures
            (r is Some) == (OpCommandView::spec_deserialize(data@) is Some),
            r matches Some(p) ==> Some(p@) == OpCommandView::spec_deserialize(data@) && p@.wf(),
    {
        let n_data: usize = data.len();
        if n_data < 16 {
            return None;
        }
        let length: u16 = read_u16_be(data, 14);
        if n_data - 16 < length as usize {
            return None;
        }
        let tail: Vec<u8> = read_bytes(data, 16, length as usize);
        let r = OpCommand { esta_mfg: read_u16_be(data, 12), length, data: tail };
        assert(r@ =~= OpCommandView::spec_deserialize(data@).unwrap());
        Some(r)
    }
}

/// Decoding the wire image of any well-formed ArtCommand packet yields the
/// packet.
pub proof fn lemma_command_roundtrip(p: OpCommandView)
    requires
        p.wf(),
    ensures
        OpCommandView::spec_deserialize(p.spec_serialize()) == Some(p),
{
    let s = p.spec_serialize();
    assert(s.len() == 16 + p.data.len());
    crate::wire::lemma_be16_roundtrip(p.length);
    crate::wire::lemma_be16_roundtrip(p.esta_mfg);
    assert(s[12] == be16(p.esta_mfg)[0] && s[13] == be16(p.esta_mfg)[1]);
    assert(s[14] == be16(p.length)[0] && s[15] == be16(p.length)[1]);
    assert(s.subrange(16, 16 + p.length as int) =~= p.data);
    assert(OpCommandView::spec_deserialize(s).unwrap() =~= p);
}

/// The length field is authoritative: decoding succeeds exactly when the
/// buffer holds the fixed fields and at least `n` payload bytes, where `n`
/// is the length it carries, and the decoded payload then has length `n`.
pub proof fn lemma_command_tail_count(data: Seq<u8>)
    ensures
        (OpCommandView::spec_deserialize(data) is Some) <==> (data.len() >= 16 && data.len() >= 16
            + u16_be(data[14], data[15])),
        OpCommandView::spec_deserialize(data) matches Some(p) ==> p.length == u16_be(
            data[14],
            data[15],
        ) && p.data.len() == u16_be(data[14], data[15]),
{
}

} // verus!
