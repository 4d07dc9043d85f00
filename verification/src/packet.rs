//! The packet envelope: a tagged union over the eight recognized kinds
//! plus an `Unknown` fallback. Decoding validates the magic, resolves the
//! opcode and delegates to the matching per-kind codec; a missing magic, an
//! unrecognized opcode or a malformed payload all yield no packet rather
//! than a fault. Encoding is pure dispatch; the `Unknown` variant encodes
//! to an empty buffer.

use vstd::prelude::*;
use crate::command::OpCommand;
use crate::command::OpCommandView;
use crate::command::lemma_command_roundtrip;
use crate::dmx::OpDmx;
use crate::dmx::OpDmxView;
use crate::dmx::lemma_dmx_roundtrip;
use crate::opcode::OP_COMMAND;
use crate::opcode::OP_DMX;
use crate::opcode::OP_POLL;
use crate::opcode::OP_POLL_REPLY;
use crate::opcode::OP_RDM;
use crate::opcode::OP_TOD_CONTROL;
use crate::opcode::OP_TOD_DATA;
use crate::opcode::OP_TOD_REQUEST;
use crate::opcode::OpCodeValues;
use crate::opcode::check_header;
use crate::opcode::header_bytes;
use crate::opcode::header_valid;
use crate::opcode::opcode_of;
use crate::poll::OpPoll;
use crate::poll::lemma_poll_roundtrip;
use crate::poll_reply::OpPollReply;
use crate::poll_reply::OpPollReplyView;
use crate::poll_reply::lemma_poll_reply_roundtrip_exact;
use crate::rdm::OpRdm;
use crate::rdm::OpRdmView;
use crate::rdm::lemma_rdm_roundtrip;
use crate::tod_control::OpTodControl;
use crate::tod_control::lemma_tod_control_roundtrip;
use crate::tod_data::OpTodData;
use crate::tod_data::OpTodDataView;
use crate::tod_data::lemma_tod_data_roundtrip;
use crate::tod_request::OpTodRequest;
use crate::tod_request::OpTodRequestView;
use crate::tod_request::lemma_tod_request_roundtrip_exact;
use crate::wire::le16;
use crate::wire::lemma_le16_roundtrip;
use crate::wire::read_u16_le;

verus! {

/// Any Art-Net packet: one case per recognized kind, plus an `Unknown`
/// placeholder that never reaches the wire.
#[derive(Debug, Clone, PartialEq, Eq)]
pub enum ArtPkt {
    OpPoll(OpPoll),
    OpPollReply(OpPollReply),
    OpTodRequest(OpTodRequest),
    OpTodData(OpTodData),
    OpTodControl(OpTodControl),
    OpRdm(OpRdm),
    OpCommand(OpCommand),
    OpDmx(OpDmx),
    Unknown(String),
}

/// The mathematical image of a packet: the matching kind's image under the
/// same tag.
#[verifier::ext_equal]
pub enum ArtPktView {
    OpPoll(OpPoll),
    OpPollReply(OpPollReplyView),
    OpTodRequest(OpTodRequestView),
    OpTodData(OpTodDataView),
    OpTodControl(OpTodControl),
    OpRdm(OpRdmView),
    OpCommand(OpCommandView),
    OpDmx(OpDmxView),
    Unknown(Seq<char>),
}

impl View for ArtPkt {
    type V = ArtPktView;

    open spec fn view(&self) -> ArtPktView {
        match self {
            ArtPkt::OpPoll(p) => ArtPktView::OpPoll(*p),
            ArtPkt::OpPollReply(p) => ArtPktView::OpPollReply(p@),
            ArtPkt::OpTodRequest(p) => ArtPktView::OpTodRequest(p@),
            ArtPkt::OpTodData(p) => ArtPktView::OpTodData(p@),
            ArtPkt::OpTodControl(p) => ArtPktView::OpTodControl(*p),
            ArtPkt::OpRdm(p) => ArtPktView::OpRdm(p@),
            ArtPkt::OpCommand(p) => ArtPktView::OpCommand(p@),
            ArtPkt::OpDmx(p) => ArtPktView::OpDmx(p@),
            ArtPkt::Unknown(s) => ArtPktView::Unknown(s@),
        }
    }
}

impl ArtPktView {
    /// The inner packet is well-formed for its kind.
    pub open spec fn wf(self) -> bool {
        match self {
            ArtPktView::OpPoll(_) => true,
            ArtPktView::OpPollReply(p) => p.wf(),
            ArtPktView::OpTodRequest(p) => p.wf(),
            ArtPktView::OpTodData(p) => p.wf(),
            ArtPktView::OpTodControl(_) => true,
            ArtPktView::OpRdm(_) => true,
            ArtPktView::OpCommand(p) => p.wf(),
            ArtPktView::OpDmx(p) => p.wf(),
            ArtPktView::Unknown(_) => true,
        }
    }

    /// The wire image: the owning kind's, and an empty buffer for
    /// `Unknown`.
    pub open spec fn spec_serialize(self) -> Seq<u8> {
        match self {
            ArtPktView::OpPoll(p) => p.spec_serialize(),
            ArtPktView::OpPollReply(p) => p.spec_serialize(),
            ArtPktView::OpTodRequest(p) => p.spec_serialize(),
            ArtPktView::OpTodData(p) => p.spec_serialize(),
            ArtPktView::OpTodControl(p) => p.spec_serialize(),
            ArtPktView::OpRdm(p) => p.spec_serialize(),
            ArtPktView::OpCommand(p) => p.spec_serialize(),
            ArtPktView::OpDmx(p) => p.spec_serialize(),
            ArtPktView::Unknown(_) => Seq::empty(),
        }
    }

    /// The packet a buffer decodes to: nothing without a valid header;
    /// nothing on an unrecognized opcode (ignorable, not erroneous); and
    /// on a recognized opcode, whatever the owning kind's decoder makes of
    /// the buffer, under that kind's tag.
    pub open spec fn spec_deserialize(data: Seq<u8>) -> Option<ArtPktView> {
        if !header_valid(data) {
            None
        } else {
            let op = opcode_of(data);
            if op == OP_POLL {
                match OpPoll::spec_deserialize(data) {
                    Some(p) => Some(ArtPktView::OpPoll(p)),
                    None => None,
                }
            } else if op == OP_POLL_REPLY {
                match OpPollReplyView::spec_deserialize(data) {
                    Some(p) => Some(ArtPktView::OpPollReply(p)),
                    None => None,
                }
            } else if op == OP_TOD_REQUEST {
                match OpTodRequestView::spec_deserialize(data) {
                    Some(p) => Some(ArtPktView::OpTodRequest(p)),
                    None => None,
                }
            } else if op == OP_TOD_DATA {
                match OpTodDataView::spec_deserialize(data) {
                    Some(p) => Some(ArtPktView::OpTodData(p)),
                    None => None,
                }
            } else if op == OP_TOD_CONTROL {
                match OpTodControl::spec_deserialize(data) {
                    Some(p) => Some(ArtPktView::OpTodControl(p)),
                    None => None,
                }
            } else if op == OP_RDM {
                match OpRdmView::spec_deserialize(data) {
                    Some(p) => Some(ArtPktView::OpRdm(p)),
                    None => None,
                }
            } else if op == OP_COMMAND {
                match OpCommandView::spec_deserialize(data) {
                    Some(p) => Some(ArtPktView::OpCommand(p)),
                    None => None,
                }
            } else if op == OP_DMX {
                match OpDmxView::spec_deserialize(data) {
                    Some(p) => Some(ArtPktView::OpDmx(p)),
                    None => None,
                }
            } else {
                None
            }
        }
    }

    /// The inputs on which the round trip through the wire is exact: the
    /// kinds whose decode mirrors encode ask nothing; a device-table
    /// request asks that the unused part of its address block be zero; a
    /// poll reply asks that its byte-swapped fields be fixed points and
    /// its names clean.
    pub open spec fn canonical(self) -> bool {
        match self {
            ArtPktView::OpPollReply(p) => p.canonical(),
            ArtPktView::OpTodRequest(p) => forall|i: int|
                p.add_count <= i < 32 ==> p.address[i] == 0,
            _ => true,
        }
    }
}

impl ArtPkt {
    /// A fresh packet: the `Unknown` placeholder with empty content.
    pub fn new() -> (r: ArtPkt)
        ensures
            r@ == ArtPktView::Unknown(Seq::<char>::empty()),
    {
        ArtPkt::Unknown(String::new())
    }

    /// Encodes the packet as its wire image: pure dispatch to the owning
    /// kind; an empty buffer for `Unknown`.
    pub fn serialize(&self) -> (r: Vec<u8>)
        requires
            self@.wf(),
        ensures
            r@ == self@.spec_serialize(),
    {
        match self {
            ArtPkt::OpPoll(data) => data.serialize(),
            ArtPkt::OpPollReply(data) => data.serialize(),
            ArtPkt::OpTodRequest(data) => data.serialize(),
            ArtPkt::OpTodData(data) => data.serialize(),
            ArtPkt::OpTodControl(data) => data.serialize(),
            ArtPkt::OpRdm(data) => data.serialize(),
            ArtPkt::OpCommand(data) => data.serialize(),
            ArtPkt::OpDmx(data) => data.serialize(),
            ArtPkt::Unknown(_) => Vec::new(),
        }
    }

    /// Decodes a buffer: validates the magic, resolves the opcode and
    /// delegates to the owning kind's decoder. A short buffer, a wrong
    /// magic, an unrecognized opcode or a malformed payload all yield
    /// `None`.
    pub fn deserialize(data: &Vec<u8>) -> (r: Option<ArtPkt>)
        ensures
            (r is Some) == (ArtPktView::spec_deserialize(data@) is Some),
            r matches Some(p) ==> Some(p@) == ArtPktView::spec_deserialize(data@) && p@.wf(),
    {
        if !check_header(data) {
            return None;
        }
        let op: u16 = read_u16_le(data, 8);
        match OpCodeValues::try_from(op) {
            Ok(OpCodeValues::OpPoll) => match OpPoll::deserialize(data) {
                Some(depkt) => Some(ArtPkt::OpPoll(depkt)),
                None => None,
            },
            Ok(OpCodeValues::OpPollReply) => match OpPollReply::deserialize(data) {
                Some(depkt) => Some(ArtPkt::OpPollReply(depkt)),
                None => None,
            },
            Ok(OpCodeValues::OpTodRequest) => match OpTodRequest::deserialize(data) {
                Some(depkt) => Some(ArtPkt::OpTodRequest(depkt)),
                None => None,
            },
            Ok(OpCodeValues::OpTodData) => match OpTodData::deserialize(data) {
                Some(depkt) => Some(ArtPkt::OpTodData(depkt)),
                None => None,
            },
            Ok(OpCodeValues::OpTodControl) => match OpTodControl::deserialize(data) {
                Some(depkt) => Some(ArtPkt::OpTodControl(depkt)),
                None => None,
            },
            Ok(OpCodeValues::OpRdm) => match OpRdm::deserialize(data) {
                Some(depkt) => Some(ArtPkt::OpRdm(depkt)),
                None => None,
            },
            Ok(OpCodeValues::OpCommand) => match OpCommand::deserialize(data) {
                Some(depkt) => Some(ArtPkt::OpCommand(depkt)),
                None => None,
            },
            Ok(OpCodeValues::OpDmx) => match OpDmx::deserialize(data) {
                Some(depkt) => Some(ArtPkt::OpDmx(depkt)),
                None => None,
            },
            Ok(OpCodeValues::Unknown) => None,
            Err(_) => None,
        }
    }
}

/// Rejection: a buffer shorter than 12 bytes, or one whose first 8 bytes
/// differ from the magic anywhere, decodes to no packet, whatever opcode
/// bytes it carries.
pub proof fn lemma_reject_invalid_header(data: Seq<u8>)
    requires
        data.len() < 12 || exists|i: int|
            0 <= i < 8 && i < data.len() && data[i] != header_bytes()[i],
    ensures
        ArtPktView::spec_deserialize(data) is None,
{
    if data.len() >= 12 {
        let i = choose|i: int| 0 <= i < 8 && i < data.len() && data[i] != header_bytes()[i];
        assert(data.take(8)[i] != header_bytes()[i]);
    }
}

/// A recognized opcode is one of the eight kinds' codes.
pub open spec fn recognized_opcode(v: u16) -> bool {
    v == OP_POLL || v == OP_POLL_REPLY || v == OP_TOD_REQUEST || v == OP_TOD_DATA
        || v == OP_TOD_CONTROL || v == OP_RDM || v == OP_COMMAND || v == OP_DMX
}

/// An unrecognized opcode is ignorable, not erroneous: even under a valid
/// header the decode yields no packet.
pub proof fn lemma_unrecognized_opcode(data: Seq<u8>)
    requires
        !recognized_opcode(opcode_of(data)),
    ensures
        ArtPktView::spec_deserialize(data) is None,
{
}

/// The round-trip law: decoding the wire image of any well-formed,
/// canonical packet of a recognized kind yields that packet, under the
/// same tag. (`Unknown` is excluded: it has no wire image of its own.)
#[verifier::rlimit(100)]
pub proof fn lemma_packet_roundtrip(p: ArtPktView)
    requires
        p.wf(),
        p.canonical(),
        !(p is Unknown),
    ensures
        ArtPktView::spec_deserialize(p.spec_serialize()) == Some(p),
{
    let s = p.spec_serialize();
    match p {
        ArtPktView::OpPoll(inner) => {
            assert(s.take(8) =~= header_bytes());
            assert(s[8] == le16(OP_POLL)[0] && s[9] == le16(OP_POLL)[1]);
            lemma_le16_roundtrip(OP_POLL);
            lemma_poll_roundtrip(inner);
        },
        ArtPktView::OpPollReply(inner) => {
            assert(s.take(8) =~= header_bytes());
            assert(s[8] == le16(OP_POLL_REPLY)[0] && s[9] == le16(OP_POLL_REPLY)[1]);
            lemma_le16_roundtrip(OP_POLL_REPLY);
            lemma_poll_reply_roundtrip_exact(inner);
        },
        ArtPktView::OpTodRequest(inner) => {
            assert(s.take(8) =~= header_bytes());
            assert(s[8] == le16(OP_TOD_REQUEST)[0] && s[9] == le16(OP_TOD_REQUEST)[1]);
            lemma_le16_roundtrip(OP_TOD_REQUEST);
            lemma_tod_request_roundtrip_exact(inner);
        },
        ArtPktView::OpTodData(inner) => {
            crate::tod_data::lemma_uids_bytes_len(inner.tod);
            assert(s.take(8) =~= header_bytes());
            assert(s[8] == le16(OP_TOD_DATA)[0] && s[9] == le16(OP_TOD_DATA)[1]);
            lemma_le16_roundtrip(OP_TOD_DATA);
            lemma_tod_data_roundtrip(inner);
        },
        ArtPktView::OpTodControl(inner) => {
            assert(s.take(8) =~= header_bytes());
            assert(s[8] == le16(OP_TOD_CONTROL)[0] && s[9] == le16(OP_TOD_CONTROL)[1]);
            lemma_le16_roundtrip(OP_TOD_CONTROL);
            lemma_tod_control_roundtrip(inner);
        },
        ArtPktView::OpRdm(inner) => {
            assert(s.take(8) =~= header_bytes());
            assert(s[8] == le16(OP_RDM)[0] && s[9] == le16(OP_RDM)[1]);
            lemma_le16_roundtrip(OP_RDM);
            lemma_rdm_roundtrip(inner);
        },
        ArtPktView::OpCommand(inner) => {
            assert(s.take(8) =~= header_bytes());
            assert(s[8] == le16(OP_COMMAND)[0] && s[9] == le16(OP_COMMAND)[1]);
            lemma_le16_roundtrip(OP_COMMAND);
            lemma_command_roundtrip(inner);
        },
        ArtPktView::OpDmx(inner) => {
            assert(s.take(8) =~= header_bytes());
            assert(s[8] == le16(OP_DMX)[0] && s[9] == le16(OP_DMX)[1]);
            lemma_le16_roundtrip(OP_DMX);
            lemma_dmx_roundtrip(inner);
        },
        ArtPktView::Unknown(_) => {},
    }
}

} // verus!
