//! The ArtTodData packet: a node's reply carrying (one block of) its table
//! of devices. After the preamble, version, RDM version, port and six spare
//! bytes come the bind index, net, command response, address, the 16-bit
//! total device count (big-endian), the block count and the number of
//! identifiers in this block, then exactly that many six-byte identifiers.

use vstd::prelude::*;
use crate::opcode::OP_TOD_DATA;
use crate::opcode::PROT_VER_LO;
use crate::opcode::header_bytes;
use crate::opcode::push_preamble;
use crate::uid::Uid;
use crate::uid::uid_at;
use crate::uid::lemma_uid_roundtrip;
use crate::wire::be16;
use crate::wire::le16;
use crate::wire::push_u16_be;
use crate::wire::push_u32_be;
use crate::wire::push_zeros;
use crate::wire::read_u16_be;
use crate::wire::u16_be;
use crate::wire::zero_bytes;

verus! {

/// The concatenated six-byte wire images of a sequence of identifiers.
pub open spec fn uids_bytes(tod: Seq<Uid>) -> Seq<u8>
    decreases tod.len(),
{
    if tod.len() == 0 {
        Seq::empty()
    } else {
        uids_bytes(tod.drop_last()) + tod.last().spec_bytes()
    }
}

/// The flattened image of `n` identifiers occupies `6 * n` bytes.
pub proof fn lemma_uids_bytes_len(tod: Seq<Uid>)
    ensures
        uids_bytes(tod).len() == 6 * tod.len(),
    decreases tod.len(),
{
    if tod.len() > 0 {
        lemma_uids_bytes_len(tod.drop_last());
    }
}

/// The `j`-th identifier's image sits at bytes `6 * j` to `6 * j + 6` of
/// the flattened image.
pub proof fn lemma_uids_bytes_at(tod: Seq<Uid>, j: int)
    requires
        0 <= j < tod.len(),
    ensures
        uids_bytes(tod).subrange(6 * j, 6 * j + 6) == tod[j].spec_bytes(),
    decreases tod.len(),
{
    lemma_uids_bytes_len(tod);
    lemma_uids_bytes_len(tod.drop_last());
    if j == tod.len() - 1 {
        assert(uids_bytes(tod).subrange(6 * j, 6 * j + 6) =~= tod.last().spec_bytes());
    } else {
        lemma_uids_bytes_at(tod.drop_last(), j);
        assert(uids_bytes(tod).subrange(6 * j, 6 * j + 6) =~= uids_bytes(
            tod.drop_last(),
        ).subrange(6 * j, 6 * j + 6));
    }
}

/// An ArtTodData packet.
#[derive(Debug, Clone, PartialEq, Eq)]
pub struct OpTodData {
    pub rdm_ver: u8,
    pub port: u8,
    pub bind_index: u8,
    pub net: u8,
    pub command_response: u8,
    pub address: u8,
    pub uid_total: u16,
    pub block_count: u8,
    pub uid_count: u8,
    pub tod: Vec<Uid>,
}

/// The mathematical image of an ArtTodData packet.
#[verifier::ext_equal]
pub struct OpTodDataView {
    pub rdm_ver: u8,
    pub port: u8,
    pub bind_index: u8,
    pub net: u8,
    pub command_response: u8,
    pub address: u8,
    pub uid_total: u16,
    pub block_count: u8,
    pub uid_count: u8,
    pub tod: Seq<Uid>,
}

impl View for OpTodData {
    type V = OpTodDataView;

    open spec fn view(&self) -> OpTodDataView {
        OpTodDataView {
            rdm_ver: self.rdm_ver,
            port: self.port,
            bind_index: self.bind_index,
            net: self.net,
            command_response: self.command_response,
            address: self.address,
            uid_total: self.uid_total,
            block_count: self.block_count,
            uid_count: self.uid_count,
            tod: self.tod@,
        }
    }
}

impl OpTodDataView {
    /// The identifier count field is authoritative for the tail: a packet
    /// is well-formed when the two agree.
    pub open spec fn wf(self) -> bool {
        self.uid_count as nat == self.tod.len()
    }

    /// The wire image: preamble, protocol version, RDM version, port, six
    /// spare zero bytes, bind index, net, command response, address, the
    /// total device count big-endian, block count, the identifier count,
    /// then the identifiers, six bytes each.
    pub open spec fn spec_serialize(self) -> Seq<u8> {
        header_bytes() + le16(OP_TOD_DATA) + seq![0u8, PROT_VER_LO, self.rdm_ver, self.port]
            + zero_bytes(6) + seq![self.bind_index, self.net, self.command_response, self.address]
            + be16(self.uid_total) + seq![self.block_count, self.uid_count] + uids_bytes(self.tod)
    }

    /// The packet a buffer decodes to: the fixed fields must be present,
    /// and the buffer must hold six bytes for every identifier the count
    /// field claims; exactly that many are taken, and any bytes beyond
    /// them are ignored. The preamble is not examined here; the envelope
    /// validates it first.
    pub open spec fn spec_deserialize(data: Seq<u8>) -> Option<OpTodDataView> {
        if data.len() < 28 {
            None
        } else {
            let n = data[27];
            if data.len() < 28 + 6 * (n as int) {
                None
            } else {
                Some(
                    OpTodDataView {
                        rdm_ver: data[12],
                        port: data[13],
                        bind_index: data[20],
                        net: data[21],
                        command_response: data[22],
                        address: data[23],
                        uid_total: u16_be(data[24], data[25]),
                        block_count: data[26],
                        uid_count: n,
                        tod: Seq::new(n as nat, |j: int| uid_at(data, 28 + 6 * j)),
                    },
                )
            }
        }
    }
}

impl OpTodData {
    /// A fresh packet: RDM version, port and bind index 1, everything else
    /// zero and an empty table.
    pub fn new() -> (r: OpTodData)
        ensures
            r@ == (OpTodDataView {
                rdm_ver: 1,
                port: 1,
                bind_index: 1,
                net: 0,
                command_response: 0,
                address: 0,
                uid_total: 0,
                block_count: 0,
                uid_count: 0,
                tod: Seq::<Uid>::empty(),
            }),
            r@.wf(),
    {
        let r = OpTodData {
            rdm_ver: 1,
            port: 1,
            bind_index: 1,
            net: 0,
            command_response: 0,
            address: 0,
            uid_total: 0,
            block_count: 0,
            uid_count: 0,
            tod: Vec::new(),
        };
        assert(r@ =~= (OpTodDataView {
            rdm_ver: 1,
            port: 1,
            bind_index: 1,
            net: 0,
            command_response: 0,
            address: 0,
            uid_total: 0,
            block_count: 0,
            uid_count: 0,
            tod: Seq::<Uid>::empty(),
        }));
        r
    }

    /// Encodes the packet as its wire image. The identifier count field
    /// governs the tail, so the caller keeps the two in agreement.
    pub fn serialize(&self) -> (r: Vec<u8>)
        requires
            self@.wf(),
        ensures
            r@ == self@.spec_serialize(),
    {
        let mut out: Vec<u8> = Vec::new();
        push_preamble(&mut out, OP_TOD_DATA);
        out.push(0u8);
        out.push(PROT_VER_LO);
        out.push(self.rdm_ver);
        out.push(self.port);
        push_zeros(&mut out, 6);
        out.push(self.bind_index);
        out.push(self.net);
        out.push(self.command_response);
        out.push(self.address);
        push_u16_be(&mut out, self.uid_total);
        out.push(self.block_count);
        out.push(self.uid_count);
        let ghost fixed = out@;
        let n: usize = self.tod.len();
        let mut i: usize = 0;
        while i < n
            invariant
                i <= n,
                n == self.tod@.len(),
                out@ == fixed + uids_bytes(self.tod@.take(i as int)),
            decreases n - i,
        {
            let u: Uid = self.tod[i];
            push_u16_be(&mut out, u.mfg);
            push_u32_be(&mut out, u.dev);
            proof {
                let t = self.tod@.take(i + 1);
                assert(t.drop_last() =~= self.tod@.take(i as int));
                assert(t.last() == self.tod@[i as int]);
                assert(out@ =~= fixed + uids_bytes(t));
            }
            i = i + 1;
        }
        assert(self.tod@.take(n as int) =~= self.tod@);
        assert(out@ =~= self@.spec_serialize());
        out
    }

    /// Decodes a buffer whose preamble the envelope has already validated.
    pub fn deserialize(data: &Vec<u8>) -> (r: Option<OpTodData>)
        ensures
            (r is Some) == (OpTodDataView::spec_deserialize(data@) is Some),
            r matches Some(p) ==> Some(p@) == OpTodDataView::spec_deserialize(data@) && p@.wf(),
    {
        let n_data: usize = data.len();
        if n_data < 28 {
            return None;
        }
        let count: u8 = data[27];
        if n_data - 28 < 6 * (count as usize) {
            return None;
        }
        let mut tod: Vec<Uid> = Vec::new();
        let mut i: usize = 0;
        while i < count as usize
            invariant
                i <= count as usize,
                28 + 6 * (count as int) <= n_data,
                n_data == data@.len(),
                tod@.len() == i,
                forall|j: int| 0 <= j < i ==> tod@[j] == uid_at(data@, 28 + 6 * j),
            decreases count as usize - i,
        {
            let u: Uid = Uid::from_bytes_at(data, 28 + 6 * i);
            tod.push(u);
            i = i + 1;
        }
        let r = OpTodData {
            rdm_ver: data[12],
            port: data[13],
            bind_index: data[20],
            net: data[21],
            command_response: data[22],
            address: data[23],
            uid_total: read_u16_be(data, 24),
            block_count: data[26],
            uid_count: count,
            tod,
        };
        proof {
            assert(r@.tod =~= Seq::new(count as nat, |j: int| uid_at(data@, 28 + 6 * j)));
            assert(r@ =~= OpTodDataView::spec_deserialize(data@).unwrap());
        }
        Some(r)
    }
}

/// Decoding the wire image of any well-formed ArtTodData packet yields the
/// packet.
pub proof fn lemma_tod_data_roundtrip(p: OpTodDataView)
    requires
        p.wf(),
    ensures
        OpTodDataView::spec_deserialize(p.spec_serialize()) == Some(p),
{
    let s = p.spec_serialize();
    lemma_uids_bytes_len(p.tod);
    assert(s.len() == 28 + 6 * p.tod.len());
    crate::wire::lemma_be16_roundtrip(p.uid_total);
    assert(s[24] == be16(p.uid_total)[0] && s[25] == be16(p.uid_total)[1]);
    assert(s[27] == p.uid_count);
    let q = OpTodDataView::spec_deserialize(s).unwrap();
    assert forall|j: int| 0 <= j < p.tod.len() implies q.tod[j] == p.tod[j] by {
        lemma_uids_bytes_at(p.tod, j);
        assert(s.subrange(28 + 6 * j, 28 + 6 * j + 6) =~= uids_bytes(p.tod).subrange(
            6 * j,
            6 * j + 6,
        ));
        lemma_uid_roundtrip(p.tod[j]);
    }
    assert(q.tod =~= p.tod);
    assert(q =~= p);
}

/// The identifier count field is authoritative: decoding succeeds exactly
/// when the buffer holds the fixed fields and six bytes for each of the
/// `n` identifiers the count claims, and the decoded table then has
/// exactly `n` entries.
pub proof fn lemma_tod_data_tail_count(data: Seq<u8>)
    ensures
        (OpTodDataView::spec_deserialize(data) is Some) <==> (data.len() >= 28 && data.len() >= 28
            + 6 * (data[27] as int)),
        OpTodDataView::spec_deserialize(data) matches Some(p) ==> p.uid_count == data[27]
            && p.tod.len() == data[27],
{
}

} // verus!
