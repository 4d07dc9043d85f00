//! The ArtTodControl packet: orders a node to act on its table of devices
//! (for instance to flush and rediscover). Nine spare bytes follow the
//! preamble, then the net, the command and the address.

use vstd::prelude::*;
use crate::opcode::OP_TOD_CONTROL;
use crate::opcode::PROT_VER_LO;
use crate::opcode::header_bytes;
use crate::opcode::push_preamble;
use crate::wire::le16;
use crate::wire::push_zeros;
use crate::wire::zero_bytes;

verus! {

/// An ArtTodControl packet.
#[derive(Debug, Clone, PartialEq, Eq)]
pub struct OpTodControl {
    pub net: u8,
    pub command: u8,
    pub address: u8,
}

impl OpTodControl {
    /// The 24-byte wire image: preamble, protocol version, nine spare zero
    /// bytes, then net, command and address.
    pub open spec fn spec_serialize(self) -> Seq<u8> {
        header_bytes() + le16(OP_TOD_CONTROL) + seq![0u8, PROT_VER_LO] + zero_bytes(9)
            + seq![self.net, self.command, self.address]
    }

    /// The packet a buffer decodes to: its bytes 21 to 23, provided all are
    /// present. The preamble is not examined here; the envelope validates
    /// it first.
    pub open spec fn spec_deserialize(data: Seq<u8>) -> Option<OpTodControl> {
        if data.len() < 24 {
            None
        } else {
            Some(OpTodControl { net: data[21], command: data[22], address: data[23] })
        }
    }

    /// A fresh packet with all fields zero.
    pub fn new() -> (r: OpTodControl)
        ensures
            r == (OpTodControl { net: 0, command: 0, address: 0 }),
    {
        OpTodControl { net: 0, command: 0, address: 0 }
    }

    /// Encodes the packet as its wire image.
    pub fn serialize(&self) -> (r: Vec<u8>)
        ensures
            r@ == self.spec_serialize(),
    {
        let mut out: Vec<u8> = Vec::new();
        push_preamble(&mut out, OP_TOD_CONTROL);
        out.push(0u8);
        out.push(PROT_VER_LO);
        push_zeros(&mut out, 9);
        out.push(self.net);
        out.push(self.command);
        out.push(self.address);
        assert(out@ =~= self.spec_serialize());
        out
    }

    /// Decodes a buffer whose preamble the envelope has already validated.
    pub fn deserialize(data: &Vec<u8>) -> (r: Option<OpTodControl>)
        ensures
            r == Self::spec_deserialize(data@),
    {
        if data.len() < 24 {
            return None;
        }
        Some(OpTodControl { net: data[21], command: data[22], address: data[23] })
    }
}

/// Decoding the wire image of any ArtTodControl packet yields the packet.
pub proof fn lemma_tod_control_roundtrip(p: OpTodControl)
    ensures
        OpTodControl::spec_deserialize(p.spec_serialize()) == Some(p),
{
    let s = p.spec_serialize();
    assert(s.len() == 24);
    assert(s[21] == p.net);
    assert(s[22] == p.command);
    assert(s[23] == p.address);
}

} // verus!
