//! The ArtRdm packet: a raw RDM frame tunnelled over Art-Net. After the
//! preamble and version come the RDM protocol version, eight spare bytes,
//! the net, the command and the address; every remaining byte of the buffer
//! is the tunnelled RDM frame, verbatim.

use vstd::prelude::*;
use crate::opcode::OP_RDM;
use crate::opcode::PROT_VER_LO;
use crate::opcode::header_bytes;
use crate::opcode::push_preamble;
use crate::wire::le16;
use crate::wire::push_slice;
use crate::wire::push_zeros;
use crate::wire::read_bytes;
use crate::wire::zero_bytes;

verus! {

/// An ArtRdm packet.
#[derive(Debug, Clone, PartialEq, Eq)]
pub struct OpRdm {
    pub rdm_ver: u8,
    pub net: u8,
    pub command: u8,
    pub address: u8,
    pub rdm_packet: Vec<u8>,
}

/// The mathematical image of an ArtRdm packet.
#[verifier::ext_equal]
pub struct OpRdmView {
    pub rdm_ver: u8,
    pub net: u8,
    pub command: u8,
    pub address: u8,
    pub rdm_packet: Seq<u8>,
}

impl View for OpRdm {
    type V = OpRdmView;

    open spec fn view(&self) -> OpRdmView {
        OpRdmView {
            rdm_ver: self.rdm_ver,
            net: self.net,
            command: self.command,
            address: self.address,
            rdm_packet: self.rdm_packet@,
        }
    }
}

impl OpRdmView {
    /// The wire image: preamble, protocol version, RDM version, eight
    /// spare zero bytes, net, command, address, then the RDM frame.
    pub open spec fn spec_serialize(self) -> Seq<u8> {
        header_bytes() + le16(OP_RDM) + seq![0u8, PROT_VER_LO, self.rdm_ver] + zero_bytes(8)
            + seq![self.net, self.command, self.address] + self.rdm_packet
    }

    /// The packet a buffer decodes to: the fixed fields must be present,
    /// and every byte after them is the RDM frame. The preamble is not
    /// examined here; the envelope validates it first.
    pub open spec fn spec_deserialize(data: Seq<u8>) -> Option<OpRdmView> {
        if data.len() < 24 {
            None
        } else {
            Some(
                OpRdmView {
                    rdm_ver: data[12],
                    net: data[21],
                    command: data[22],
                    address: data[23],
                    rdm_packet: data.subrange(24, data.len() as int),
                },
            )
        }
    }
}

impl OpRdm {
    /// A fresh packet with RDM version 1, all other fields zero and an
    /// empty frame.
    pub fn new() -> (r: OpRdm)
        ensures
            r@ == (OpRdmView {
                rdm_ver: 1,
                net: 0,
                command: 0,
                address: 0,
                rdm_packet: Seq::<u8>::empty(),
            }),
    {
        let r = OpRdm { rdm_ver: 1, net: 0, command: 0, address: 0, rdm_packet: Vec::new() };
        assert(r@ =~= (OpRdmView {
            rdm_ver: 1,
            net: 0,
            command: 0,
            address: 0,
            rdm_packet: Seq::<u8>::empty(),
        }));
        r
    }

    /// Encodes the packet as its wire image.
    pub fn serialize(&self) -> (r: Vec<u8>)
        ensures
            r@ == self@.spec_serialize(),
    {
        let mut out: Vec<u8> = Vec::new();
        push_preamble(&mut out, OP_RDM);
        out.push(0u8);
        out.push(PROT_VER_LO);
        out.push(self.rdm_ver);
        push_zeros(&mut out, 8);
        out.push(self.net);
        out.push(self.command);
        out.push(self.address);
        push_slice(&mut out, self.rdm_packet.as_slice());
        assert(out@ =~= self@.spec_serialize());
        out
    }

    /// Decodes a buffer whose preamble the envelope has already validated.
    pub fn deserialize(data: &Vec<u8>) -> (r: Option<OpRdm>)
        ensures
            (r is Some) == (OpRdmView::spec_deserialize(data@) is Some),
            r matches Some(p) ==> Some(p@) == OpRdmView::spec_deserialize(data@),
    {
        let n_data: usize = data.len();
        if n_data < 24 {
            return None;
        }
        let tail: Vec<u8> = read_bytes(data, 24, n_data - 24);
        let r = OpRdm {
            rdm_ver: data[12],
            net: data[21],
            command: data[22],
            address: data[23],
            rdm_packet: tail,
        };
        assert(r@ =~= OpRdmView::spec_deserialize(data@).unwrap());
        Some(r)
    }
}

/// Decoding the wire image of any ArtRdm packet yields the packet.
pub proof fn lemma_rdm_roundtrip(p: OpRdmView)
    ensures
        OpRdmView::spec_deserialize(p.spec_serialize()) == Some(p),
{
    let s = p.spec_serialize();
    assert(s.len() == 24 + p.rdm_packet.len());
    assert(s.subrange(24, s.len() as int) =~= p.rdm_packet);
    assert(OpRdmView::spec_deserialize(s).unwrap() =~= p);
}

} // verus!
