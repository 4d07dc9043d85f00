//! Round trips through the envelope: for every kind, decoding the encoding
//! of a valid value yields an equal value, up to the format's documented
//! exceptions (truncated names, padding, and the poll reply's byte-swapped
//! numeric fields).

use artnet::ArtPkt;
use artnet::OpCommand;
use artnet::OpDmx;
use artnet::OpPoll;
use artnet::OpPollReply;
use artnet::OpRdm;
use artnet::OpTodControl;
use artnet::OpTodData;
use artnet::OpTodRequest;
use artnet::Uid;

#[test]
fn roundtrip_poll() {
    let mut p = OpPoll::new();
    p.flags = 0x06;
    p.diag_priority = 0x40;
    let pkt = ArtPkt::OpPoll(p.clone());
    let decoded = ArtPkt::deserialize(&pkt.serialize()).expect("decodes");
    assert_eq!(decoded, ArtPkt::OpPoll(p));
}

#[test]
fn roundtrip_poll_reply() {
    let mut p = OpPollReply::new();
    // The byte-swapped fields stay at symmetric values (zero); every other
    // field round-trips exactly.
    p.ip_address = [10, 0, 0, 7];
    p.ubea_version = 3;
    p.status1 = 0xd2;
    p.short_name = b"node".to_vec();
    p.long_name = b"a longer node name".to_vec();
    p.node_report = b"#0001 [0005] ok".to_vec();
    p.port_types = [0x80, 0x40, 0, 0];
    p.good_input = [8, 8, 0, 0];
    p.good_output = [0x80, 0, 0, 0];
    p.sw_in = [1, 2, 3, 4];
    p.sw_out = [4, 3, 2, 1];
    p.priority = 100;
    p.sw_macro = 5;
    p.sw_remote = 6;
    p.style = 1;
    p.mac = [1, 2, 3, 4, 5, 6];
    p.bind_ip = [10, 0, 0, 8];
    p.bind_index = 1;
    p.status2 = 0x0e;
    p.good_output_b = [0xc0, 0, 0, 0];
    p.status3 = 0x20;
    p.default_responder = Uid::new(0x4d50, 0x01020304);
    let pkt = ArtPkt::OpPollReply(p.clone());
    let decoded = ArtPkt::deserialize(&pkt.serialize()).expect("decodes");
    assert_eq!(decoded, ArtPkt::OpPollReply(p));
}

#[test]
fn roundtrip_poll_reply_swapped_fields() {
    let mut p = OpPollReply::new();
    p.port = 0x1936;
    p.vers_info = 0x0102;
    p.oem = 0x2cd0;
    p.esta_mfg = 0x02ae;
    p.num_ports = 0x0400;
    p.universe_switch = 0x0012;
    let pkt = ArtPkt::OpPollReply(p);
    let decoded = ArtPkt::deserialize(&pkt.serialize()).expect("decodes");
    match decoded {
        ArtPkt::OpPollReply(q) => {
            // Written little-endian, read back big-endian: byte-swapped.
            assert_eq!(q.port, 0x3619);
            assert_eq!(q.vers_info, 0x0201);
            assert_eq!(q.oem, 0xd02c);
            assert_eq!(q.esta_mfg, 0xae02);
            assert_eq!(q.num_ports, 0x0004);
            // The universe switch comes back through the nibble-and-byte
            // recombination: low byte shifted fully, high byte by a nibble.
            assert_eq!(q.universe_switch, 0x1200);
        }
        other => panic!("wrong variant: {:?}", other),
    }
}

#[test]
fn roundtrip_tod_request() {
    let mut p = OpTodRequest::new();
    p.net = 1;
    p.command = 0;
    p.add_count = 3;
    p.address[0] = 0x10;
    p.address[1] = 0x11;
    p.address[2] = 0x12;
    let pkt = ArtPkt::OpTodRequest(p.clone());
    let decoded = ArtPkt::deserialize(&pkt.serialize()).expect("decodes");
    assert_eq!(decoded, ArtPkt::OpTodRequest(p));
}

#[test]
fn roundtrip_tod_data() {
    let mut p = OpTodData::new();
    p.net = 2;
    p.command_response = 0;
    p.address = 5;
    p.uid_total = 2;
    p.block_count = 0;
    p.uid_count = 2;
    p.tod = vec![Uid::new(0x1234, 0x56789abc), Uid::new(0xffff, 0xffffffff)];
    let pkt = ArtPkt::OpTodData(p.clone());
    let decoded = ArtPkt::deserialize(&pkt.serialize()).expect("decodes");
    assert_eq!(decoded, ArtPkt::OpTodData(p));
}

#[test]
fn roundtrip_tod_control() {
    let mut p = OpTodControl::new();
    p.net = 3;
    p.command = 1;
    p.address = 9;
    let pkt = ArtPkt::OpTodControl(p.clone());
    let decoded = ArtPkt::deserialize(&pkt.serialize()).expect("decodes");
    assert_eq!(decoded, ArtPkt::OpTodControl(p));
}

#[test]
fn roundtrip_rdm() {
    let mut p = OpRdm::new();
    p.rdm_ver = 1;
    p.net = 0;
    p.command = 0;
    p.address = 4;
    p.rdm_packet = vec![0xcc, 0x01, 0x18, 0x00];
    let pkt = ArtPkt::OpRdm(p.clone());
    let decoded = ArtPkt::deserialize(&pkt.serialize()).expect("decodes");
    assert_eq!(decoded, ArtPkt::OpRdm(p));
}

#[test]
fn roundtrip_command() {
    let mut p = OpCommand::new();
    p.esta_mfg = 0xffff;
    p.data = b"SwoutText=Playback&".to_vec();
    p.length = p.data.len() as u16;
    let pkt = ArtPkt::OpCommand(p.clone());
    let decoded = ArtPkt::deserialize(&pkt.serialize()).expect("decodes");
    assert_eq!(decoded, ArtPkt::OpCommand(p));
}

#[test]
fn roundtrip_dmx() {
    let mut p = OpDmx::new();
    p.sequence = 7;
    p.physical = 1;
    p.universe = 0x0203;
    p.data = vec![0, 255, 128, 64, 32];
    p.length = p.data.len() as u16;
    let pkt = ArtPkt::OpDmx(p.clone());
    let decoded = ArtPkt::deserialize(&pkt.serialize()).expect("decodes");
    assert_eq!(decoded, ArtPkt::OpDmx(p));
}

#[test]
fn roundtrip_uid() {
    let u = Uid::new(0x02ae, 0xdeadbeef);
    let bytes = u.to_bytes();
    assert_eq!(bytes, vec![0x02, 0xae, 0xde, 0xad, 0xbe, 0xef]);
    assert_eq!(Uid::from_bytes(&bytes), u);
}
