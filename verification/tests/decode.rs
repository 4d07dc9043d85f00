//! Decode-side behaviour: rejection of bad headers, opcode coverage over
//! minimal buffers, and the authority of the tail count fields.

use artnet::ArtPkt;
use artnet::OpCommand;
use artnet::OpDmx;
use artnet::OpError;
use artnet::OpTodData;

/// A buffer holding the magic, the opcode little-endian, and `extra` zero
/// bytes after the 12-byte prefix.
fn base(op: u16, extra: usize) -> Vec<u8> {
    let mut v = vec![0x41, 0x72, 0x74, 0x2d, 0x4e, 0x65, 0x74, 0x00];
    v.push((op & 0xff) as u8);
    v.push((op >> 8) as u8);
    v.push(0);
    v.push(14);
    v.extend(std::iter::repeat(0u8).take(extra));
    v
}

#[test]
fn reject_short_buffers() {
    for n in 0..12 {
        let v = vec![0x41u8; n];
        assert!(ArtPkt::deserialize(&v).is_none());
        // Even a buffer that starts with the magic is too short below 12.
        let w: Vec<u8> = base(0x2000, 0).into_iter().take(n).collect();
        assert!(ArtPkt::deserialize(&w).is_none());
    }
}

#[test]
fn reject_corrupted_magic() {
    // Corrupting any single magic byte defeats decoding, for recognized
    // and unrecognized opcodes alike.
    for op in [0x2000u16, 0x2100, 0x8000, 0x8100, 0x8200, 0x8300, 0x2400, 0x5000, 0x0001] {
        for i in 0..8 {
            let mut v = base(op, 300);
            v[i] ^= 0x01;
            assert!(ArtPkt::deserialize(&v).is_none());
        }
    }
}

#[test]
fn opcode_coverage_minimal_buffers() {
    // A minimal valid buffer for each recognized opcode produces the
    // correspondingly-tagged variant.
    let poll = base(0x2000, 2);
    assert!(matches!(ArtPkt::deserialize(&poll), Some(ArtPkt::OpPoll(_))));

    let reply = base(0x2100, 212);
    assert!(matches!(ArtPkt::deserialize(&reply), Some(ArtPkt::OpPollReply(_))));

    let tod_request = base(0x8000, 12);
    assert!(matches!(ArtPkt::deserialize(&tod_request), Some(ArtPkt::OpTodRequest(_))));

    let tod_data = base(0x8100, 16);
    assert!(matches!(ArtPkt::deserialize(&tod_data), Some(ArtPkt::OpTodData(_))));

    let tod_control = base(0x8200, 12);
    assert!(matches!(ArtPkt::deserialize(&tod_control), Some(ArtPkt::OpTodControl(_))));

    let rdm = base(0x8300, 12);
    assert!(matches!(ArtPkt::deserialize(&rdm), Some(ArtPkt::OpRdm(_))));

    let command = base(0x2400, 4);
    assert!(matches!(ArtPkt::deserialize(&command), Some(ArtPkt::OpCommand(_))));

    let dmx = base(0x5000, 6);
    assert!(matches!(ArtPkt::deserialize(&dmx), Some(ArtPkt::OpDmx(_))));
}

#[test]
fn unused_opcode_yields_no_packet() {
    let v = base(0x0001, 300);
    assert!(ArtPkt::deserialize(&v).is_none());
}

#[test]
fn reserved_zero_opcode_yields_no_packet() {
    let v = base(0x0000, 300);
    assert!(ArtPkt::deserialize(&v).is_none());
}

#[test]
fn tod_data_tail_count_fidelity() {
    // Two identifiers announced, twelve tail bytes present: decodes with a
    // two-entry table.
    let mut v = base(0x8100, 16);
    v[27] = 2;
    v.extend([0x00, 0x01, 0x00, 0x00, 0x00, 0x02]);
    v.extend([0x00, 0x03, 0x00, 0x00, 0x00, 0x04]);
    match ArtPkt::deserialize(&v) {
        Some(ArtPkt::OpTodData(p)) => {
            assert_eq!(p.uid_count, 2);
            assert_eq!(p.tod.len(), 2);
            assert_eq!(p.tod[0].mfg, 1);
            assert_eq!(p.tod[0].dev, 2);
            assert_eq!(p.tod[1].mfg, 3);
            assert_eq!(p.tod[1].dev, 4);
        }
        other => panic!("wrong result: {:?}", other),
    }
    // One byte short of the announced tail: no packet.
    v.pop();
    assert!(ArtPkt::deserialize(&v).is_none());
}

#[test]
fn command_tail_count_fidelity() {
    let mut v = base(0x2400, 4);
    v[15] = 3;
    v.extend([b'a', b'b', b'c']);
    match ArtPkt::deserialize(&v) {
        Some(ArtPkt::OpCommand(p)) => {
            assert_eq!(p.length, 3);
            assert_eq!(p.data, vec![b'a', b'b', b'c']);
        }
        other => panic!("wrong result: {:?}", other),
    }
    v.pop();
    assert!(ArtPkt::deserialize(&v).is_none());
}

#[test]
fn dmx_tail_count_fidelity() {
    let mut v = base(0x5000, 6);
    v[17] = 4;
    v.extend([1, 2, 3, 4]);
    match ArtPkt::deserialize(&v) {
        Some(ArtPkt::OpDmx(p)) => {
            assert_eq!(p.length, 4);
            assert_eq!(p.data, vec![1, 2, 3, 4]);
        }
        other => panic!("wrong result: {:?}", other),
    }
    v.pop();
    assert!(ArtPkt::deserialize(&v).is_none());
}

#[test]
fn tail_ignores_extra_bytes() {
    // The count field is authoritative: bytes beyond the announced tail
    // belong to the enclosing transport frame and are ignored.
    let mut v = base(0x5000, 6);
    v[17] = 2;
    v.extend([9, 8, 7, 6, 5]);
    match ArtPkt::deserialize(&v) {
        Some(ArtPkt::OpDmx(p)) => {
            assert_eq!(p.length, 2);
            assert_eq!(p.data, vec![9, 8]);
        }
        other => panic!("wrong result: {:?}", other),
    }
}

#[test]
fn tod_request_count_over_capacity_fails() {
    // The address tail shares a fixed 32-byte capacity; a larger count
    // must fail rather than overrun.
    let mut v = base(0x8000, 12 + 64);
    v[23] = 33;
    assert!(ArtPkt::deserialize(&v).is_none());
    v[23] = 32;
    assert!(matches!(ArtPkt::deserialize(&v), Some(ArtPkt::OpTodRequest(_))));
}

#[test]
fn kind_decoders_reject_truncated_fixed_portions() {
    let reply = base(0x2100, 211);
    assert!(ArtPkt::deserialize(&reply).is_none());
    let poll = base(0x2000, 1);
    assert!(ArtPkt::deserialize(&poll).is_none());
    let rdm = base(0x8300, 11);
    assert!(ArtPkt::deserialize(&rdm).is_none());
    let tod_control = base(0x8200, 11);
    assert!(ArtPkt::deserialize(&tod_control).is_none());
    let tod_data = base(0x8100, 15);
    assert!(ArtPkt::deserialize(&tod_data).is_none());
    let tod_request = base(0x8000, 11);
    assert!(ArtPkt::deserialize(&tod_request).is_none());
    let command = base(0x2400, 3);
    assert!(ArtPkt::deserialize(&command).is_none());
    let dmx = base(0x5000, 5);
    assert!(ArtPkt::deserialize(&dmx).is_none());
}

#[test]
fn poll_reply_decode_reads_layout_fields() {
    let mut v = base(0x2100, 212);
    // ip at 10, port big-endian read at 14.
    v[10] = 192;
    v[11] = 168;
    v[12] = 0;
    v[13] = 1;
    v[14] = 0x19;
    v[15] = 0x36;
    // short name at 26, zero-terminated.
    v[26] = b'h';
    v[27] = b'i';
    // bind ip at 207, bind index at 211, status2 at 212.
    v[207] = 10;
    v[211] = 3;
    v[212] = 0x0e;
    // responder identifier at 218.
    v[218] = 0x12;
    v[219] = 0x34;
    v[223] = 0x99;
    match ArtPkt::deserialize(&v) {
        Some(ArtPkt::OpPollReply(p)) => {
            assert_eq!(p.ip_address, [192, 168, 0, 1]);
            assert_eq!(p.port, 0x1936);
            assert_eq!(p.short_name, b"hi".to_vec());
            assert_eq!(p.bind_ip, [10, 0, 0, 0]);
            assert_eq!(p.bind_index, 3);
            assert_eq!(p.status2, 0x0e);
            assert_eq!(p.default_responder.mfg, 0x1234);
            assert_eq!(p.default_responder.dev, 0x99);
        }
        other => panic!("wrong result: {:?}", other),
    }
}

#[test]
fn error_placeholder_decodes_to_empty() {
    let v = vec![1, 2, 3];
    let p = OpError::deserialize(&v).expect("always decodes");
    assert_eq!(p.code, String::new());
    assert_eq!(OpError::new().serialize(), Vec::<u8>::new());
}

#[test]
fn fresh_defaults_match_protocol() {
    let d = OpDmx::new();
    assert_eq!(d.length, 0);
    assert!(d.data.is_empty());
    let t = OpTodData::new();
    assert_eq!(t.rdm_ver, 1);
    assert_eq!(t.port, 1);
    assert_eq!(t.bind_index, 1);
    let c = OpCommand::new();
    assert_eq!(c.esta_mfg, 0);
    assert!(matches!(ArtPkt::new(), ArtPkt::Unknown(s) if s.is_empty()));
}
