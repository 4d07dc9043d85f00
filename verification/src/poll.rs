//! The ArtPoll packet: a controller's discovery broadcast. Two meaningful
//! bytes (behaviour flags and diagnostic priority) follow the common
//! preamble, then four reserved zero bytes.

use vstd::prelude::*;
use crate::opcode::OP_POLL;
use crate::opcode::PROT_VER_LO;
use crate::opcode::header_bytes;
use crate::opcode::push_preamble;
use crate::wire::le16;
use crate::wire::push_zeros;
use crate::wire::zero_bytes;

verus! {

/// An ArtPoll packet.
#[derive(Debug, Clone, PartialEq, Eq)]
pub struct OpPoll {
    pub flags: u8,
    pub diag_priority: u8,
}

impl OpPoll {
    /// The 18-byte wire image: preamble, protocol version, flags,
    /// diagnostic priority, four reserved zero bytes.
    pub open spec fn spec_serialize(self) -> Seq<u8> {
        header_bytes() + le16(OP_POLL) + seq![0u8, PROT_VER_LO, self.flags, self.diag_priority]
            + zero_bytes(4)
    }

    /// The packet a buffer decodes to: its bytes 12 and 13, provided both
    /// are present. The preamble is not examined here; the envelope
    /// validates it first.
    pub open spec fn spec_deserialize(data: Seq<u8>) -> Option<OpPoll> {
        if data.len() < 14 {
            None
        } else {
            Some(OpPoll { flags: data[12], diag_priority: data[13] })
        }
    }

    /// A fresh packet with all fields zero.
    pub fn new() -> (r: OpPoll)
        ensures
            r == (OpPoll { flags: 0, diag_priority: 0 }),
    {
        OpPoll { flags: 0, diag_priority: 0 }
    }

    /// Encodes the packet as its wire image.
    pub fn serialize(&self) -> (r: Vec<u8>)
        ensures
            r@ == self.spec_serialize(),
    {
        let mut out: Vec<u8> = Vec::new();
        push_preamble(&mut out, OP_POLL);
        out.push(0u8);
        out.push(PROT_VER_LO);
        out.push(self.flags);
        out.push(self.diag_priority);
        push_zeros(&mut out, 4);
        assert(out@ =~= self.spec_serialize());
        out
    }

    /// Decodes a buffer whose preamble the envelope has already validated.
    pub fn deserialize(data: &Vec<u8>) -> (r: Option<OpPoll>)
        ensures
            r == Self::spec_deserialize(data@),
    {
        if data.len() < 14 {
            return None;
        }
        Some(OpPoll { flags: data[12], diag_priority: data[13] })
    }
}

/// Decoding the wire image of any ArtPoll packet yields the packet.
pub proof fn lemma_poll_roundtrip(p: OpPoll)
    ensures
        OpPoll::spec_deserialize(p.spec_serialize()) == Some(p),
{
    let s = p.spec_serialize();
    assert(s.len() == 18);
    assert(s[12] == p.flags);
    assert(s[13] == p.diag_priority);
}

} // verus!
