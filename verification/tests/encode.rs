//! Encode-side behaviour: exact wire bytes for known packets, the name
//! truncation law, and the derived text accessors.

use artnet::ArtPkt;
use artnet::OpDmx;
use artnet::OpPoll;
use artnet::OpCodeValues;
use artnet::OpPollReply;

#[test]
fn dmx_example_bytes() {
    let mut p = OpDmx::new();
    p.sequence = 1;
    p.physical = 0;
    p.universe = 0;
    p.length = 3;
    p.data = vec![10, 20, 30];
    let bytes = ArtPkt::OpDmx(p).serialize();
    assert_eq!(bytes.len(), 21);
    // Magic, opcode little-endian, protocol version.
    assert_eq!(&bytes[0..8], b"Art-Net\0");
    assert_eq!(&bytes[8..10], &[0x00, 0x50]);
    assert_eq!(&bytes[10..12], &[0, 14]);
    assert_eq!(&bytes[12..14], &[1, 0]);
    // Universe little-endian, then the channel count big-endian.
    assert_eq!(&bytes[14..16], &[0x00, 0x00]);
    assert_eq!(&bytes[16..18], &[0x00, 0x03]);
    // The last three bytes are the channel data.
    assert_eq!(&bytes[18..21], &[0x0a, 0x14, 0x1e]);
}

#[test]
fn poll_wire_layout() {
    let mut p = OpPoll::new();
    p.flags = 0x02;
    p.diag_priority = 0x10;
    let bytes = p.serialize();
    assert_eq!(
        bytes,
        vec![0x41, 0x72, 0x74, 0x2d, 0x4e, 0x65, 0x74, 0x00, 0x00, 0x20, 0, 14, 0x02, 0x10, 0, 0, 0, 0]
    );
}

#[test]
fn poll_reply_wire_is_239_bytes() {
    let p = OpPollReply::new();
    let bytes = p.serialize();
    assert_eq!(bytes.len(), 239);
    assert_eq!(&bytes[8..10], &[0x00, 0x21]);
    // No version field: the ip follows the opcode directly.
    assert_eq!(&bytes[10..14], &[0, 0, 0, 0]);
    // Default priority is 100.
    assert_eq!(bytes[194], 100);
    // The fifteen trailing spare bytes are zero.
    assert_eq!(&bytes[224..239], &[0u8; 15]);
}

#[test]
fn short_name_truncates_to_17_bytes() {
    let mut p = OpPollReply::new();
    p.short_name = b"abcdefghijklmnopqrstuvwxyz".to_vec();
    let bytes = p.serialize();
    // Only the 17-byte prefix survives; the 18th byte of the field is the
    // reserved terminator and stays zero.
    assert_eq!(&bytes[26..43], b"abcdefghijklmnopq");
    assert_eq!(bytes[43], 0);
    let decoded = OpPollReply::deserialize(&bytes).expect("decodes");
    assert_eq!(decoded.short_name, b"abcdefghijklmnopq".to_vec());
}

#[test]
fn long_name_and_node_report_truncate_to_63_bytes() {
    let mut p = OpPollReply::new();
    let long: Vec<u8> = (0..80u8).map(|i| b'a' + (i % 26)).collect();
    p.long_name = long.clone();
    p.node_report = long.clone();
    let bytes = p.serialize();
    assert_eq!(&bytes[44..107], &long[0..63]);
    assert_eq!(bytes[107], 0);
    assert_eq!(&bytes[108..171], &long[0..63]);
    assert_eq!(bytes[171], 0);
}

#[test]
fn short_name_within_capacity_is_padded_with_zeros() {
    let mut p = OpPollReply::new();
    p.short_name = b"node".to_vec();
    let bytes = p.serialize();
    assert_eq!(&bytes[26..30], b"node");
    assert_eq!(&bytes[30..44], &[0u8; 14]);
}

#[test]
fn unknown_encodes_to_empty_buffer() {
    let pkt = ArtPkt::Unknown(String::from("anything"));
    assert_eq!(pkt.serialize(), Vec::<u8>::new());
}

#[test]
fn name_text_accessors_decode_utf8() {
    let mut p = OpPollReply::new();
    p.short_name = b"hello".to_vec();
    assert_eq!(p.short_name_text(), "hello");
    // An invalid UTF-8 byte becomes the replacement character rather than
    // failing the decode.
    p.long_name = vec![b'h', 0xff, b'i'];
    assert_eq!(p.long_name_text(), "h\u{fffd}i");
    p.node_report = vec![0xf0, 0x9f, 0x92, 0xa1];
    assert_eq!(p.node_report_text(), "\u{1f4a1}");
}

#[test]
fn tod_request_writes_exactly_count_tail_bytes() {
    let mut p = artnet::OpTodRequest::new();
    p.add_count = 2;
    p.address[0] = 7;
    p.address[1] = 8;
    p.address[31] = 0xee;
    let bytes = p.serialize();
    // The count field is authoritative: two tail bytes, not thirty-two.
    assert_eq!(bytes.len(), 26);
    assert_eq!(&bytes[24..26], &[7, 8]);
}

#[test]
fn command_and_tod_data_opcodes_are_distinct() {
    let c = artnet::OpCommand::new().serialize();
    assert_eq!(&c[8..10], &[0x00, 0x24]);
    let t = artnet::OpTodData::new().serialize();
    assert_eq!(&t[8..10], &[0x00, 0x81]);
    let r = artnet::OpTodRequest::new().serialize();
    assert_eq!(&r[8..10], &[0x00, 0x80]);
    let tc = artnet::OpTodControl::new().serialize();
    assert_eq!(&tc[8..10], &[0x00, 0x82]);
    let rdm = artnet::OpRdm::new().serialize();
    assert_eq!(&rdm[8..10], &[0x00, 0x83]);
}

#[test]
fn opcode_registry_maps_codes_both_ways() {
    assert_eq!(OpCodeValues::OpDmx.code(), 0x5000);
    assert_eq!(OpCodeValues::OpPoll.code(), 0x2000);
    assert_eq!(OpCodeValues::Unknown.code(), 0);
    assert!(matches!(OpCodeValues::try_from(0x2100), Ok(OpCodeValues::OpPollReply)));
    assert!(matches!(OpCodeValues::try_from(0x8200), Ok(OpCodeValues::OpTodControl)));
    assert!(matches!(OpCodeValues::try_from(0), Ok(OpCodeValues::Unknown)));
    assert!(OpCodeValues::try_from(0x0001).is_err());
    assert!(OpCodeValues::try_from(0x1234).is_err());
}
