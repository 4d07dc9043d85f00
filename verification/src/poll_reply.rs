//! The ArtPollReply packet: a node's self-description, by far the widest
//! layout. It carries no protocol version field: the node's address data
//! begins right after the preamble, followed by version and port numbers,
//! three fixed-width zero-padded names, port status blocks, the hardware
//! address, binding data and the default responder identifier.
//!
//! The wire format's own inconsistencies are preserved here: the 16-bit
//! numeric fields are written little-endian but read back big-endian, and
//! the universe switch is reconstructed on decode by an unusual
//! nibble-and-byte recombination. Decoding therefore byte-swaps those
//! fields; the round-trip laws below state that exactly.

use vstd::prelude::*;
use crate::opcode::OP_POLL_REPLY;
use crate::opcode::header_bytes;
use crate::opcode::push_preamble;
use crate::text::lossy_string;
use crate::text::pack_text;
use crate::text::lemma_pack_text_width;
use crate::text::lemma_pack_text_truncates;
use crate::text::lemma_pack_text_roundtrip;
use crate::text::push_text_padded;
use crate::text::text_of;
use crate::text::text_prefix;
use crate::text::utf8_lossy;
use crate::uid::Uid;
use crate::uid::lemma_uid_roundtrip;
use crate::uid::uid_at;
use crate::wire::le16;
use crate::wire::lemma_le16_read_be;
use crate::wire::push_array;
use crate::wire::push_slice;
use crate::wire::push_u16_le;
use crate::wire::push_zeros;
use crate::wire::read_array;
use crate::wire::read_bytes;
use crate::wire::read_u16_be;
use crate::wire::swap16;
use crate::wire::u16_be;
use crate::wire::zero_bytes;

verus! {

/// An ArtPollReply packet.
#[derive(Debug, Clone, PartialEq, Eq)]
pub struct OpPollReply {
    pub ip_address: [u8; 4],
    pub port: u16,
    pub vers_info: u16,
    pub universe_switch: u16,
    pub oem: u16,
    pub ubea_version: u8,
    pub status1: u8,
    pub esta_mfg: u16,
    pub short_name: Vec<u8>,
    pub long_name: Vec<u8>,
    pub node_report: Vec<u8>,
    pub num_ports: u16,
    pub port_types: [u8; 4],
    pub good_input: [u8; 4],
    pub good_output: [u8; 4],
    pub sw_in: [u8; 4],
    pub sw_out: [u8; 4],
    pub priority: u8,
    pub sw_macro: u8,
    pub sw_remote: u8,
    pub style: u8,
    pub mac: [u8; 6],
    pub bind_ip: [u8; 4],
    pub bind_index: u8,
    pub status2: u8,
    pub good_output_b: [u8; 4],
    pub status3: u8,
    pub default_responder: Uid,
}

/// The mathematical image of an ArtPollReply packet.
#[verifier::ext_equal]
pub struct OpPollReplyView {
    pub ip_address: Seq<u8>,
    pub port: u16,
    pub vers_info: u16,
    pub universe_switch: u16,
    pub oem: u16,
    pub ubea_version: u8,
    pub status1: u8,
    pub esta_mfg: u16,
    pub short_name: Seq<u8>,
    pub long_name: Seq<u8>,
    pub node_report: Seq<u8>,
    pub num_ports: u16,
    pub port_types: Seq<u8>,
    pub good_input: Seq<u8>,
    pub good_output: Seq<u8>,
    pub sw_in: Seq<u8>,
    pub sw_out: Seq<u8>,
    pub priority: u8,
    pub sw_macro: u8,
    pub sw_remote: u8,
    pub style: u8,
    pub mac: Seq<u8>,
    pub bind_ip: Seq<u8>,
    pub bind_index: u8,
    pub status2: u8,
    pub good_output_b: Seq<u8>,
    pub status3: u8,
    pub default_responder: Uid,
}

impl View for OpPollReply {
    type V = OpPollReplyView;

    open spec fn view(&self) -> OpPollReplyView {
        OpPollReplyView {
            ip_address: self.ip_address@,
            port: self.port,
            vers_info: self.vers_info,
            universe_switch: self.universe_switch,
            oem: self.oem,
            ubea_version: self.ubea_version,
            status1: self.status1,
            esta_mfg: self.esta_mfg,
            short_name: self.short_name@,
            long_name: self.long_name@,
            node_report: self.node_report@,
            num_ports: self.num_ports,
            port_types: self.port_types@,
            good_input: self.good_input@,
            good_output: self.good_output@,
            sw_in: self.sw_in@,
            sw_out: self.sw_out@,
            priority: self.priority,
            sw_macro: self.sw_macro,
            sw_remote: self.sw_remote,
            style: self.style,
            mac: self.mac@,
            bind_ip: self.bind_ip@,
            bind_index: self.bind_index,
            status2: self.status2,
            good_output_b: self.good_output_b@,
            status3: self.status3,
            default_responder: self.default_responder,
        }
    }
}

/// What the decoder makes of an encoded universe switch: the wire carries
/// it little-endian, and the decoder recombines the two bytes as a nibble
/// shift of the high byte plus a full shift of the low byte, truncated to
/// 16 bits.
pub open spec fn universe_rewrap(v: u16) -> u16 {
    (((v / 256) * 16 + (v % 256) * 256) % 0x10000) as u16
}

impl OpPollReplyView {
    /// Every fixed-width block has its declared width. The names are
    /// unconstrained: encoding truncates and pads them itself.
    pub open spec fn wf(self) -> bool {
        &&& self.ip_address.len() == 4
        &&& self.port_types.len() == 4
        &&& self.good_input.len() == 4
        &&& self.good_output.len() == 4
        &&& self.sw_in.len() == 4
        &&& self.sw_out.len() == 4
        &&& self.mac.len() == 6
        &&& self.bind_ip.len() == 4
        &&& self.good_output_b.len() == 4
    }

    /// The 239-byte wire image. Offsets from the start of the magic:
    /// ip 10, port 14, version 16, universe switch 18, oem 20, ubea 22,
    /// status 23, ESTA code 24, short name 26, long name 44, node report
    /// 108, port count 172, port blocks 174, priority 194, macro 195,
    /// remote 196, three spare bytes, style 200, hardware address 201,
    /// bind ip 207, bind index 211, status 212, output block 213, status
    /// 217, responder identifier 218, fifteen trailing spare bytes.
    pub open spec fn spec_serialize(self) -> Seq<u8> {
        header_bytes() + le16(OP_POLL_REPLY) + self.ip_address + le16(self.port) + le16(
            self.vers_info,
        ) + le16(self.universe_switch) + le16(self.oem) + seq![self.ubea_version, self.status1]
            + le16(self.esta_mfg) + pack_text(self.short_name, 18) + pack_text(self.long_name, 64)
            + pack_text(self.node_report, 64) + le16(self.num_ports) + self.port_types
            + self.good_input + self.good_output + self.sw_in + self.sw_out
            + seq![self.priority, self.sw_macro, self.sw_remote] + zero_bytes(3) + seq![self.style]
            + self.mac + self.bind_ip + seq![self.bind_index, self.status2] + self.good_output_b
            + seq![self.status3] + self.default_responder.spec_bytes() + zero_bytes(15)
    }

    /// The packet a buffer decodes to, reading every field of the layout
    /// in order; the buffer must reach through the responder identifier
    /// (byte 224), and the fifteen trailing spare bytes are not required.
    /// The 16-bit fields are read big-endian although encoding wrote them
    /// little-endian, and the universe switch is recombined, as the source
    /// format does. The preamble is not examined here; the envelope
    /// validates it first.
    pub open spec fn spec_deserialize(data: Seq<u8>) -> Option<OpPollReplyView> {
        if data.len() < 224 {
            None
        } else {
            Some(
                OpPollReplyView {
                    ip_address: data.subrange(10, 14),
                    port: u16_be(data[14], data[15]),
                    vers_info: u16_be(data[16], data[17]),
                    universe_switch: (((data[19] as int) * 16 + (data[18] as int) * 256)
                        % 0x10000) as u16,
                    oem: u16_be(data[20], data[21]),
                    ubea_version: data[22],
                    status1: data[23],
                    esta_mfg: u16_be(data[24], data[25]),
                    short_name: text_of(data.subrange(26, 44)),
                    long_name: text_of(data.subrange(44, 108)),
                    node_report: text_of(data.subrange(108, 172)),
                    num_ports: u16_be(data[172], data[173]),
                    port_types: data.subrange(174, 178),
                    good_input: data.subrange(178, 182),
                    good_output: data.subrange(182, 186),
                    sw_in: data.subrange(186, 190),
                    sw_out: data.subrange(190, 194),
                    priority: data[194],
                    sw_macro: data[195],
                    sw_remote: data[196],
                    style: data[200],
                    mac: data.subrange(201, 207),
                    bind_ip: data.subrange(207, 211),
                    bind_index: data[211],
                    status2: data[212],
                    good_output_b: data.subrange(213, 217),
                    status3: data[217],
                    default_responder: uid_at(data, 218),
                },
            )
        }
    }

    /// The inputs on which the round trip is exact: every byte-swapped
    /// numeric field is a fixed point of its decode transform, and each
    /// name fits its usable capacity with no zero byte of its own.
    pub open spec fn canonical(self) -> bool {
        &&& swap16(self.port) == self.port
        &&& swap16(self.vers_info) == self.vers_info
        &&& universe_rewrap(self.universe_switch) == self.universe_switch
        &&& swap16(self.oem) == self.oem
        &&& swap16(self.esta_mfg) == self.esta_mfg
        &&& swap16(self.num_ports) == self.num_ports
        &&& clean_name(self.short_name, 17)
        &&& clean_name(self.long_name, 63)
        &&& clean_name(self.node_report, 63)
    }
}

/// A name that survives packing untouched: within the usable capacity and
/// free of zero bytes.
pub open spec fn clean_name(s: Seq<u8>, usable: nat) -> bool {
    s.len() <= usable && forall|i: int| 0 <= i < s.len() ==> s[i] != 0
}

impl OpPollReply {
    /// A fresh packet: priority 100 (the protocol's default), every other
    /// field zero or empty.
    pub fn new() -> (r: OpPollReply)
        ensures
            r@ == (OpPollReplyView {
                ip_address: zero_bytes(4),
                port: 0,
                vers_info: 0,
                universe_switch: 0,
                oem: 0,
                ubea_version: 0,
                status1: 0,
                esta_mfg: 0,
                short_name: Seq::<u8>::empty(),
                long_name: Seq::<u8>::empty(),
                node_report: Seq::<u8>::empty(),
                num_ports: 0,
                port_types: zero_bytes(4),
                good_input: zero_bytes(4),
                good_output: zero_bytes(4),
                sw_in: zero_bytes(4),
                sw_out: zero_bytes(4),
                priority: 100,
                sw_macro: 0,
                sw_remote: 0,
                style: 0,
                mac: zero_bytes(6),
                bind_ip: zero_bytes(4),
                bind_index: 0,
                status2: 0,
                good_output_b: zero_bytes(4),
                status3: 0,
                default_responder: Uid { mfg: 0, dev: 0 },
            }),
            r@.wf(),
    {
        let r = OpPollReply {
            ip_address: [0u8; 4],
            port: 0,
            vers_info: 0,
            universe_switch: 0,
            oem: 0,
            ubea_version: 0,
            status1: 0,
            esta_mfg: 0,
            short_name: Vec::new(),
            long_name: Vec::new(),
            node_report: Vec::new(),
            num_ports: 0,
            port_types: [0u8; 4],
            good_input: [0u8; 4],
            good_output: [0u8; 4],
            sw_in: [0u8; 4],
            sw_out: [0u8; 4],
            priority: 100,
            sw_macro: 0,
            sw_remote: 0,
            style: 0,
            mac: [0u8; 6],
            bind_ip: [0u8; 4],
            bind_index: 0,
            status2: 0,
            good_output_b: [0u8; 4],
            status3: 0,
            default_responder: Uid { mfg: 0, dev: 0 },
        };
        proof {
            assert(r.ip_address@ =~= zero_bytes(4));
            assert(r.port_types@ =~= zero_bytes(4));
            assert(r.good_input@ =~= zero_bytes(4));
            assert(r.good_output@ =~= zero_bytes(4));
            assert(r.sw_in@ =~= zero_bytes(4));
            assert(r.sw_out@ =~= zero_bytes(4));
            assert(r.mac@ =~= zero_bytes(6));
            assert(r.bind_ip@ =~= zero_bytes(4));
            assert(r.good_output_b@ =~= zero_bytes(4));
            assert(r@ =~= (OpPollReplyView {
                ip_address: zero_bytes(4),
                port: 0,
                vers_info: 0,
                universe_switch: 0,
                oem: 0,
                ubea_version: 0,
                status1: 0,
                esta_mfg: 0,
                short_name: Seq::<u8>::empty(),
                long_name: Seq::<u8>::empty(),
                node_report: Seq::<u8>::empty(),
                num_ports: 0,
                port_types: zero_bytes(4),
                good_input: zero_bytes(4),
                good_output: zero_bytes(4),
                sw_in: zero_bytes(4),
                sw_out: zero_bytes(4),
                priority: 100,
                sw_macro: 0,
                sw_remote: 0,
                style: 0,
                mac: zero_bytes(6),
                bind_ip: zero_bytes(4),
                bind_index: 0,
                status2: 0,
                good_output_b: zero_bytes(4),
                status3: 0,
                default_responder: Uid { mfg: 0, dev: 0 },
            }));
        }
        r
    }

    /// Encodes the packet as its 239-byte wire image.
    #[verifier::rlimit(60)]
    pub fn serialize(&self) -> (r: Vec<u8>)
        ensures
            r@ == self@.spec_serialize(),
    {
        let mut out: Vec<u8> = Vec::new();
        push_preamble(&mut out, OP_POLL_REPLY);
        push_array(&mut out, &self.ip_address);
        push_u16_le(&mut out, self.port);
        push_u16_le(&mut out, self.vers_info);
        push_u16_le(&mut out, self.universe_switch);
        push_u16_le(&mut out, self.oem);
        out.push(self.ubea_version);
        out.push(self.status1);
        push_u16_le(&mut out, self.esta_mfg);
        push_text_padded(&mut out, &self.short_name, 18);
        push_text_padded(&mut out, &self.long_name, 64);
        push_text_padded(&mut out, &self.node_report, 64);
        push_u16_le(&mut out, self.num_ports);
        push_array(&mut out, &self.port_types);
        push_array(&mut out, &self.good_input);
        push_array(&mut out, &self.good_output);
        push_array(&mut out, &self.sw_in);
        push_array(&mut out, &self.sw_out);
        out.push(self.priority);
        out.push(self.sw_macro);
        out.push(self.sw_remote);
        push_zeros(&mut out, 3);
        out.push(self.style);
        push_array(&mut out, &self.mac);
        push_array(&mut out, &self.bind_ip);
        out.push(self.bind_index);
        out.push(self.status2);
        push_array(&mut out, &self.good_output_b);
        out.push(self.status3);
        let uid_bytes: Vec<u8> = self.default_responder.to_bytes();
        push_slice(&mut out, uid_bytes.as_slice());
        push_zeros(&mut out, 15);
        assert(out@ =~= self@.spec_serialize());
        out
    }

    /// Decodes a buffer whose preamble the envelope has already validated.
    #[verifier::rlimit(60)]
    pub fn deserialize(data: &Vec<u8>) -> (r: Option<OpPollReply>)
        ensures
            (r is Some) == (OpPollReplyView::spec_deserialize(data@) is Some),
            r matches Some(p) ==> Some(p@) == OpPollReplyView::spec_deserialize(data@) && p@.wf(),
    {
        let n_data: usize = data.len();
        if n_data < 224 {
            return None;
        }
        let hi: u8 = data[18];
        let lo: u8 = data[19];
        let us32: u32 = (lo as u32) * 16 + (hi as u32) * 256;
        let universe_switch: u16 = (us32 % 0x10000) as u16;
        let short_region: Vec<u8> = read_bytes(data, 26, 18);
        let long_region: Vec<u8> = read_bytes(data, 44, 64);
        let node_region: Vec<u8> = read_bytes(data, 108, 64);
        let r = OpPollReply {
            ip_address: read_array::<4>(data, 10),
            port: read_u16_be(data, 14),
            vers_info: read_u16_be(data, 16),
            universe_switch,
            oem: read_u16_be(data, 20),
            ubea_version: data[22],
            status1: data[23],
            esta_mfg: read_u16_be(data, 24),
            short_name: text_prefix(&short_region),
            long_name: text_prefix(&long_region),
            node_report: text_prefix(&node_region),
            num_ports: read_u16_be(data, 172),
            port_types: read_array::<4>(data, 174),
            good_input: read_array::<4>(data, 178),
            good_output: read_array::<4>(data, 182),
            sw_in: read_array::<4>(data, 186),
            sw_out: read_array::<4>(data, 190),
            priority: data[194],
            sw_macro: data[195],
            sw_remote: data[196],
            style: data[200],
            mac: read_array::<6>(data, 201),
            bind_ip: read_array::<4>(data, 207),
            bind_index: data[211],
            status2: data[212],
            good_output_b: read_array::<4>(data, 213),
            status3: data[217],
            default_responder: Uid::from_bytes_at(data, 218),
        };
        assert(r@ =~= OpPollReplyView::spec_deserialize(data@).unwrap());
        Some(r)
    }

    /// The meaningful text of the short name, decoded as UTF-8 with
    /// invalid sequences replaced.
    pub fn short_name_text(&self) -> (r: String)
        ensures
            r@ == utf8_lossy(self.short_name@),
    {
        lossy_string(&self.short_name)
    }

    /// The meaningful text of the long name, decoded as UTF-8 with
    /// invalid sequences replaced.
    pub fn long_name_text(&self) -> (r: String)
        ensures
            r@ == utf8_lossy(self.long_name@),
    {
        lossy_string(&self.long_name)
    }

    /// The meaningful text of the node report, decoded as UTF-8 with
    /// invalid sequences replaced.
    pub fn node_report_text(&self) -> (r: String)
        ensures
            r@ == utf8_lossy(self.node_report@),
    {
        lossy_string(&self.node_report)
    }
}

/// Decoding the wire image of any well-formed ArtPollReply packet yields
/// the packet, field for field, except for the format's own asymmetries:
/// the six 16-bit numeric fields come back byte-swapped (the universe
/// switch through its nibble recombination), and each name comes back as
/// the prefix its fixed buffer preserved.
#[verifier::rlimit(100)]
pub proof fn lemma_poll_reply_roundtrip(p: OpPollReplyView)
    requires
        p.wf(),
    ensures
        OpPollReplyView::spec_deserialize(p.spec_serialize()) matches Some(q)
            && q.ip_address == p.ip_address && q.port == swap16(p.port) && q.vers_info == swap16(
            p.vers_info,
        ) && q.universe_switch == universe_rewrap(p.universe_switch) && q.oem == swap16(p.oem)
            && q.ubea_version == p.ubea_version && q.status1 == p.status1 && q.esta_mfg == swap16(
            p.esta_mfg,
        ) && q.short_name == text_of(pack_text(p.short_name, 18)) && q.long_name == text_of(
            pack_text(p.long_name, 64),
        ) && q.node_report == text_of(pack_text(p.node_report, 64)) && q.num_ports == swap16(
            p.num_ports,
        ) && q.port_types == p.port_types && q.good_input == p.good_input && q.good_output
            == p.good_output && q.sw_in == p.sw_in && q.sw_out == p.sw_out && q.priority
            == p.priority && q.sw_macro == p.sw_macro && q.sw_remote == p.sw_remote && q.style
            == p.style && q.mac == p.mac && q.bind_ip == p.bind_ip && q.bind_index == p.bind_index
            && q.status2 == p.status2 && q.good_output_b == p.good_output_b && q.status3
            == p.status3 && q.default_responder == p.default_responder,
{
    let s = p.spec_serialize();
    lemma_pack_text_width(p.short_name, 18);
    lemma_pack_text_width(p.long_name, 64);
    lemma_pack_text_width(p.node_report, 64);
    assert(s.len() == 239);
    lemma_le16_read_be(p.port);
    lemma_le16_read_be(p.vers_info);
    lemma_le16_read_be(p.oem);
    lemma_le16_read_be(p.esta_mfg);
    lemma_le16_read_be(p.num_ports);
    let q = OpPollReplyView::spec_deserialize(s).unwrap();
    assert(s.subrange(10, 14) =~= p.ip_address);
    assert(s[14] == le16(p.port)[0] && s[15] == le16(p.port)[1]);
    assert(s[16] == le16(p.vers_info)[0] && s[17] == le16(p.vers_info)[1]);
    assert(s[18] == le16(p.universe_switch)[0] && s[19] == le16(p.universe_switch)[1]);
    assert(s[20] == le16(p.oem)[0] && s[21] == le16(p.oem)[1]);
    assert(s[22] == p.ubea_version && s[23] == p.status1);
    assert(s[24] == le16(p.esta_mfg)[0] && s[25] == le16(p.esta_mfg)[1]);
    assert(s.subrange(26, 44) =~= pack_text(p.short_name, 18));
    assert(s.subrange(44, 108) =~= pack_text(p.long_name, 64));
    assert(s.subrange(108, 172) =~= pack_text(p.node_report, 64));
    assert(s[172] == le16(p.num_ports)[0] && s[173] == le16(p.num_ports)[1]);
    assert(s.subrange(174, 178) =~= p.port_types);
    assert(s.subrange(178, 182) =~= p.good_input);
    assert(s.subrange(182, 186) =~= p.good_output);
    assert(s.subrange(186, 190) =~= p.sw_in);
    assert(s.subrange(190, 194) =~= p.sw_out);
    assert(s[194] == p.priority && s[195] == p.sw_macro && s[196] == p.sw_remote);
    assert(s[200] == p.style);
    assert(s.subrange(201, 207) =~= p.mac);
    assert(s.subrange(207, 211) =~= p.bind_ip);
    assert(s[211] == p.bind_index && s[212] == p.status2);
    assert(s.subrange(213, 217) =~= p.good_output_b);
    assert(s[217] == p.status3);
    assert(s.subrange(218, 224) =~= p.default_responder.spec_bytes());
    lemma_uid_roundtrip(p.default_responder);
}

/// The truncation law at the wire: each name field of the image is its
/// text packed into its fixed width, so a name longer than the usable
/// capacity (17, 63 and 63 bytes) keeps exactly that prefix, and the
/// reserved terminating byte of each field (bytes 43, 107 and 171) is
/// always zero.
pub proof fn lemma_poll_reply_name_truncation(p: OpPollReplyView)
    requires
        p.wf(),
    ensures
        p.spec_serialize().subrange(26, 44) == pack_text(p.short_name, 18),
        p.spec_serialize().subrange(44, 108) == pack_text(p.long_name, 64),
        p.spec_serialize().subrange(108, 172) == pack_text(p.node_report, 64),
        p.spec_serialize()[43] == 0 && p.spec_serialize()[107] == 0 && p.spec_serialize()[171]
            == 0,
        p.short_name.len() > 17 ==> p.spec_serialize().subrange(26, 43) == p.short_name.take(17),
        p.long_name.len() > 63 ==> p.spec_serialize().subrange(44, 107) == p.long_name.take(63),
        p.node_report.len() > 63 ==> p.spec_serialize().subrange(108, 171) == p.node_report.take(
            63,
        ),
{
    let s = p.spec_serialize();
    lemma_pack_text_width(p.short_name, 18);
    lemma_pack_text_width(p.long_name, 64);
    lemma_pack_text_width(p.node_report, 64);
    lemma_pack_text_truncates(p.short_name, 18);
    lemma_pack_text_truncates(p.long_name, 64);
    lemma_pack_text_truncates(p.node_report, 64);
    assert(s.subrange(26, 44) =~= pack_text(p.short_name, 18));
    assert(s.subrange(44, 108) =~= pack_text(p.long_name, 64));
    assert(s.subrange(108, 172) =~= pack_text(p.node_report, 64));
    if p.short_name.len() > 17 {
        assert(s.subrange(26, 43) =~= pack_text(p.short_name, 18).take(17));
    }
    if p.long_name.len() > 63 {
        assert(s.subrange(44, 107) =~= pack_text(p.long_name, 64).take(63));
    }
    if p.node_report.len() > 63 {
        assert(s.subrange(108, 171) =~= pack_text(p.node_report, 64).take(63));
    }
}

/// On canonical packets the round trip is exact: every byte-swapped field
/// is a fixed point of its swap and every name fits untruncated.
pub proof fn lemma_poll_reply_roundtrip_exact(p: OpPollReplyView)
    requires
        p.wf(),
        p.canonical(),
    ensures
        OpPollReplyView::spec_deserialize(p.spec_serialize()) == Some(p),
{
    lemma_poll_reply_roundtrip(p);
    lemma_pack_text_roundtrip(p.short_name, 18);
    lemma_pack_text_roundtrip(p.long_name, 64);
    lemma_pack_text_roundtrip(p.node_report, 64);
    let q = OpPollReplyView::spec_deserialize(p.spec_serialize()).unwrap();
    assert(q =~= p);
}

} // verus!
