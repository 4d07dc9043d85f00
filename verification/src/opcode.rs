//! The packet header: every Art-Net packet opens with the eight-byte
//! protocol magic (the ASCII letters `Art-Net` and a zero byte) followed by
//! a 16-bit opcode stored little-endian. The opcode registry maps that code
//! to one of the eight recognized packet kinds.

use vstd::prelude::*;
use crate::wire::le16;
use crate::wire::push_u16_le;
use crate::wire::u16_le;

verus! {

pub const OP_POLL: u16 = 0x2000;

pub const OP_POLL_REPLY: u16 = 0x2100;

pub const OP_TOD_REQUEST: u16 = 0x8000;

pub const OP_TOD_DATA: u16 = 0x8100;

pub const OP_TOD_CONTROL: u16 = 0x8200;

pub const OP_RDM: u16 = 0x8300;

pub const OP_COMMAND: u16 = 0x2400;

pub const OP_DMX: u16 = 0x5000;

/// The low protocol version byte: this codec speaks protocol version 14.
pub const PROT_VER_LO: u8 = 14;

/// The eight-byte protocol magic: `Art-Net` followed by a zero byte.
pub open spec fn header_bytes() -> Seq<u8> {
    seq![0x41u8, 0x72u8, 0x74u8, 0x2du8, 0x4eu8, 0x65u8, 0x74u8, 0x00u8]
}

/// Appends the protocol magic followed by the little-endian opcode `op`.
pub fn push_preamble(out: &mut Vec<u8>, op: u16)
    ensures
        final(out)@ == old(out)@ + header_bytes() + le16(op),
{
    out.push(0x41u8);
    out.push(0x72u8);
    out.push(0x74u8);
    out.push(0x2du8);
    out.push(0x4eu8);
    out.push(0x65u8);
    out.push(0x74u8);
    out.push(0x00u8);
    assert(out@ =~= old(out)@ + header_bytes());
    push_u16_le(out, op);
}

/// Whether `data` opens with the protocol magic and is long enough to carry
/// the opcode and version fields: the first test every decode makes.
pub open spec fn header_valid(data: Seq<u8>) -> bool {
    data.len() >= 12 && data.take(8) == header_bytes()
}

/// Checks `header_valid`: at least 12 bytes, opening with the magic.
pub fn check_header(data: &Vec<u8>) -> (r: bool)
    ensures
        r == header_valid(data@),
{
    if data.len() < 12 {
        return false;
    }
    let ok: bool = data[0] == 0x41 && data[1] == 0x72 && data[2] == 0x74 && data[3] == 0x2d
        && data[4] == 0x4e && data[5] == 0x65 && data[6] == 0x74 && data[7] == 0x00;
    if ok {
        assert(data@.take(8) =~= header_bytes());
    } else {
        assert(data@.take(8) != header_bytes()) by {
            if data@.take(8) == header_bytes() {
                assert(data@[0] == header_bytes()[0]);
                assert(data@[1] == header_bytes()[1]);
                assert(data@[2] == header_bytes()[2]);
                assert(data@[3] == header_bytes()[3]);
                assert(data@[4] == header_bytes()[4]);
                assert(data@[5] == header_bytes()[5]);
                assert(data@[6] == header_bytes()[6]);
                assert(data@[7] == header_bytes()[7]);
            }
        }
    }
    ok
}

/// The opcode carried at bytes 8 and 9, little-endian.
pub open spec fn opcode_of(data: Seq<u8>) -> u16
    recommends
        data.len() >= 10,
{
    u16_le(data[8], data[9])
}

/// The eight recognized packet kinds, plus the reserved code zero.
#[derive(Debug, Clone, Copy, PartialEq, Eq, Structural)]
pub enum OpCodeValues {
    OpPoll,
    OpPollReply,
    OpTodRequest,
    OpTodData,
    OpTodControl,
    OpRdm,
    OpCommand,
    OpDmx,
    Unknown,
}

impl OpCodeValues {
    /// The 16-bit wire code of this kind; the reserved code zero for
    /// `Unknown`.
    pub open spec fn spec_code(self) -> u16 {
        match self {
            OpCodeValues::OpPoll => OP_POLL,
            OpCodeValues::OpPollReply => OP_POLL_REPLY,
            OpCodeValues::OpTodRequest => OP_TOD_REQUEST,
            OpCodeValues::OpTodData => OP_TOD_DATA,
            OpCodeValues::OpTodControl => OP_TOD_CONTROL,
            OpCodeValues::OpRdm => OP_RDM,
            OpCodeValues::OpCommand => OP_COMMAND,
            OpCodeValues::OpDmx => OP_DMX,
            OpCodeValues::Unknown => 0,
        }
    }

    /// The 16-bit wire code of this kind.
    pub fn code(&self) -> (r: u16)
        ensures
            r == self.spec_code(),
    {
        match self {
            OpCodeValues::OpPoll => OP_POLL,
            OpCodeValues::OpPollReply => OP_POLL_REPLY,
            OpCodeValues::OpTodRequest => OP_TOD_REQUEST,
            OpCodeValues::OpTodData => OP_TOD_DATA,
            OpCodeValues::OpTodControl => OP_TOD_CONTROL,
            OpCodeValues::OpRdm => OP_RDM,
            OpCodeValues::OpCommand => OP_COMMAND,
            OpCodeValues::OpDmx => OP_DMX,
            OpCodeValues::Unknown => 0,
        }
    }

    /// The kind a 16-bit code resolves to: one of the eight recognized
    /// kinds, `Unknown` for the reserved code zero, and no kind at all for
    /// any other value.
    pub open spec fn spec_try_from(v: u16) -> Result<OpCodeValues, ()> {
        if v == OP_POLL {
            Ok(OpCodeValues::OpPoll)
        } else if v == OP_POLL_REPLY {
            Ok(OpCodeValues::OpPollReply)
        } else if v == OP_TOD_REQUEST {
            Ok(OpCodeValues::OpTodRequest)
        } else if v == OP_TOD_DATA {
            Ok(OpCodeValues::OpTodData)
        } else if v == OP_TOD_CONTROL {
            Ok(OpCodeValues::OpTodControl)
        } else if v == OP_RDM {
            Ok(OpCodeValues::OpRdm)
        } else if v == OP_COMMAND {
            Ok(OpCodeValues::OpCommand)
        } else if v == OP_DMX {
            Ok(OpCodeValues::OpDmx)
        } else if v == 0 {
            Ok(OpCodeValues::Unknown)
        } else {
            Err(())
        }
    }

    /// Resolves a 16-bit code to its kind, or `Err` for an unrecognized
    /// code.
    pub fn try_from(v: u16) -> (r: Result<OpCodeValues, ()>)
        ensures
            r == Self::spec_try_from(v),
    {
        if v == OP_POLL {
            Ok(OpCodeValues::OpPoll)
        } else if v == OP_POLL_REPLY {
            Ok(OpCodeValues::OpPollReply)
        } else if v == OP_TOD_REQUEST {
            Ok(OpCodeValues::OpTodRequest)
        } else if v == OP_TOD_DATA {
            Ok(OpCodeValues::OpTodData)
        } else if v == OP_TOD_CONTROL {
            Ok(OpCodeValues::OpTodControl)
        } else if v == OP_RDM {
            Ok(OpCodeValues::OpRdm)
        } else if v == OP_COMMAND {
            Ok(OpCodeValues::OpCommand)
        } else if v == OP_DMX {
            Ok(OpCodeValues::OpDmx)
        } else if v == 0 {
            Ok(OpCodeValues::Unknown)
        } else {
            Err(())
        }
    }
}

/// The registry is consistent: resolving the wire code of any kind yields
/// that kind back.
pub proof fn lemma_opcode_registry_consistent(k: OpCodeValues)
    ensures
        OpCodeValues::spec_try_from(k.spec_code()) == Ok::<OpCodeValues, ()>(k),
{
}

} // verus!
