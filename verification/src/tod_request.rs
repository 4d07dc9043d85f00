//! The ArtTodRequest packet: asks nodes for their table of devices. After
//! the preamble, version and nine pad/spare bytes come the net, the command
//! and an address count, then exactly that many address bytes out of a
//! fixed 32-byte capacity.

use vstd::prelude::*;
use crate::opcode::OP_TOD_REQUEST;
use crate::opcode::PROT_VER_LO;
use crate::opcode::header_bytes;
use crate::opcode::push_preamble;
use crate::wire::le16;
use crate::wire::push_zeros;
use crate::wire::zero_bytes;

verus! {

/// An ArtTodRequest packet.
#[derive(Debug, Clone, PartialEq, Eq)]
pub struct OpTodRequest {
    pub net: u8,
    pub command: u8,
    pub add_count: u8,
    pub address: [u8; 32],
}

/// The mathematical image of an ArtTodRequest packet.
#[verifier::ext_equal]
pub struct OpTodRequestView {
    pub net: u8,
    pub command: u8,
    pub add_count: u8,
    pub address: Seq<u8>,
}

impl View for OpTodRequest {
    type V = OpTodRequestView;

    open spec fn view(&self) -> OpTodRequestView {
        OpTodRequestView {
            net: self.net,
            command: self.command,
            add_count: self.add_count,
            address: self.address@,
        }
    }
}

impl OpTodRequestView {
    /// The address storage is a fixed 32-byte block, and the count names
    /// how many of its leading bytes are meaningful.
    pub open spec fn wf(self) -> bool {
        self.address.len() == 32 && self.add_count <= 32
    }

    /// The wire image: preamble, protocol version, nine pad/spare zero
    /// bytes, net, command, the address count, then exactly that many
    /// address bytes.
    pub open spec fn spec_serialize(self) -> Seq<u8> {
        header_bytes() + le16(OP_TOD_REQUEST) + seq![0u8, PROT_VER_LO] + zero_bytes(9)
            + seq![self.net, self.command, self.add_count] + self.address.take(self.add_count as int)
    }

    /// The packet a buffer decodes to: the fixed fields must be present,
    /// the count may not exceed the 32-byte capacity, and the buffer must
    /// hold that many address bytes; they fill the front of the address
    /// block and the rest of it is zero. The preamble is not examined
    /// here; the envelope validates it first.
    pub open spec fn spec_deserialize(data: Seq<u8>) -> Option<OpTodRequestView> {
        if data.len() < 24 {
            None
        } else {
            let n = data[23];
            if n > 32 || data.len() < 24 + n {
                None
            } else {
                Some(
                    OpTodRequestView {
                        net: data[21],
                        command: data[22],
                        add_count: n,
                        address: data.subrange(24, 24 + n as int) + zero_bytes((32 - n) as nat),
                    },
                )
            }
        }
    }
}

impl OpTodRequest {
    /// A fresh packet with all fields zero and an empty address block.
    pub fn new() -> (r: OpTodRequest)
        ensures
            r@ == (OpTodRequestView {
                net: 0,
                command: 0,
                add_count: 0,
                address: zero_bytes(32),
            }),
            r@.wf(),
    {
        let r = OpTodRequest { net: 0, command: 0, add_count: 0, address: [0u8; 32] };
        assert(r@ =~= (OpTodRequestView {
            net: 0,
            command: 0,
            add_count: 0,
            address: zero_bytes(32),
        }));
        r
    }

    /// Encodes the packet as its wire image. The count field governs the
    /// tail, so the caller keeps it within the 32-byte capacity.
    pub fn serialize(&self) -> (r: Vec<u8>)
        requires
            self@.wf(),
        ensures
            r@ == self@.spec_serialize(),
    {
        let mut out: Vec<u8> = Vec::new();
        push_preamble(&mut out, OP_TOD_REQUEST);
        out.push(0u8);
        out.push(PROT_VER_LO);
        push_zeros(&mut out, 9);
        out.push(self.net);
        out.push(self.command);
        out.push(self.add_count);
        let ghost fixed = out@;
        let count: usize = self.add_count as usize;
        let mut i: usize = 0;
        while i < count
            invariant
                i <= count,
                count <= 32,
                self@.address.len() == 32,
                out@ == fixed + self@.address.take(i as int),
            decreases count - i,
        {
            out.push(self.address[i]);
            assert(out@ =~= fixed + self@.address.take(i + 1));
            i = i + 1;
        }
        assert(out@ =~= self@.spec_serialize());
        out
    }

    /// Decodes a buffer whose preamble the envelope has already validated.
    pub fn deserialize(data: &Vec<u8>) -> (r: Option<OpTodRequest>)
        ensures
            (r is Some) == (OpTodRequestView::spec_deserialize(data@) is Some),
            r matches Some(p) ==> Some(p@) == OpTodRequestView::spec_deserialize(data@) && p@.wf(),
    {
        let n_data: usize = data.len();
        if n_data < 24 {
            return None;
        }
        let count: u8 = data[23];
        if count > 32 || n_data - 24 < count as usize {
            return None;
        }
        let mut address: [u8; 32] = [0u8; 32];
        let mut i: usize = 0;
        while i < count as usize
            invariant
                i <= count as usize,
                count <= 32,
                24 + count as usize <= n_data,
                n_data == data@.len(),
                address@.len() == 32,
                forall|j: int| 0 <= j < i ==> address@[j] == data@[24 + j],
                forall|j: int| i <= j < 32 ==> address@[j] == 0,
            decreases count as usize - i,
        {
            address[i] = data[24 + i];
            i = i + 1;
        }
        let r = OpTodRequest { net: data[21], command: data[22], add_count: count, address };
        proof {
            let expected = data@.subrange(24, 24 + count as int) + zero_bytes((32 - count) as nat);
            assert(r@.address =~= expected);
            assert(r@ =~= OpTodRequestView::spec_deserialize(data@).unwrap());
        }
        Some(r)
    }
}

/// Decoding the wire image of any well-formed ArtTodRequest packet yields
/// the packet, except that the address bytes past the count come back as
/// the zero padding the wire never carried.
pub proof fn lemma_tod_request_roundtrip(p: OpTodRequestView)
    requires
        p.wf(),
    ensures
        OpTodRequestView::spec_deserialize(p.spec_serialize()) matches Some(q) && q.net == p.net
            && q.command == p.command && q.add_count == p.add_count && q.address == p.address.take(
            p.add_count as int,
        ) + zero_bytes((32 - p.add_count) as nat),
{
    let s = p.spec_serialize();
    assert(s.len() == 24 + p.add_count);
    assert(s[21] == p.net && s[22] == p.command && s[23] == p.add_count);
    assert(s.subrange(24, 24 + p.add_count as int) =~= p.address.take(p.add_count as int));
}

/// When every address byte past the count is already zero, the round trip
/// is exact.
pub proof fn lemma_tod_request_roundtrip_exact(p: OpTodRequestView)
    requires
        p.wf(),
        forall|i: int| p.add_count <= i < 32 ==> p.address[i] == 0,
    ensures
        OpTodRequestView::spec_deserialize(p.spec_serialize()) == Some(p),
{
    lemma_tod_request_roundtrip(p);
    let q = OpTodRequestView::spec_deserialize(p.spec_serialize()).unwrap();
    assert(q.address =~= p.address);
    assert(q =~= p);
}

} // verus!
