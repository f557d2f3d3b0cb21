//! Engine-level tests: whole captures iterated packet by packet.

use pcarp::capture::Capture;
use pcarp::error::{BlockError, Error, FrameError};
use pcarp::iface::InterfaceId;
use pcarp::link_type::LinkType;
use pcarp::packet::{Packet, WallClock};

fn w32(v: u32, le: bool) -> [u8; 4] {
    if le {
        v.to_le_bytes()
    } else {
        v.to_be_bytes()
    }
}

fn w16(v: u16, le: bool) -> [u8; 2] {
    if le {
        v.to_le_bytes()
    } else {
        v.to_be_bytes()
    }
}

fn frame(ty: u32, body: &[u8], le: bool) -> Vec<u8> {
    let total = (12 + body.len()) as u32;
    let mut v = Vec::new();
    v.extend_from_slice(&w32(ty, le));
    v.extend_from_slice(&w32(total, le));
    v.extend_from_slice(body);
    v.extend_from_slice(&w32(total, le));
    v
}

fn shb(le: bool) -> Vec<u8> {
    let mut body = Vec::new();
    if le {
        body.extend_from_slice(&[0x4D, 0x3C, 0x2B, 0x1A]);
    } else {
        body.extend_from_slice(&[0x1A, 0x2B, 0x3C, 0x4D]);
    }
    body.extend_from_slice(&w16(1, le));
    body.extend_from_slice(&w16(0, le));
    body.extend_from_slice(&[0xFF; 8]);
    frame(0x0A0D_0D0A, &body, le)
}

fn opt(code: u16, val: &[u8], le: bool) -> Vec<u8> {
    let mut v = Vec::new();
    v.extend_from_slice(&w16(code, le));
    v.extend_from_slice(&w16(val.len() as u16, le));
    v.extend_from_slice(val);
    while v.len() % 4 != 0 {
        v.push(0);
    }
    v
}

fn idb(link_type: u16, snap: u32, opts: &[u8], le: bool) -> Vec<u8> {
    let mut body = Vec::new();
    body.extend_from_slice(&w16(link_type, le));
    body.extend_from_slice(&[0, 0]);
    body.extend_from_slice(&w32(snap, le));
    body.extend_from_slice(opts);
    frame(1, &body, le)
}

fn epb(iface: u32, ts_hi: u32, ts_lo: u32, data: &[u8], orig: u32, le: bool) -> Vec<u8> {
    let mut body = Vec::new();
    body.extend_from_slice(&w32(iface, le));
    body.extend_from_slice(&w32(ts_hi, le));
    body.extend_from_slice(&w32(ts_lo, le));
    body.extend_from_slice(&w32(data.len() as u32, le));
    body.extend_from_slice(&w32(orig, le));
    body.extend_from_slice(data);
    while body.len() % 4 != 0 {
        body.push(0);
    }
    frame(6, &body, le)
}

fn next_packet(cap: &mut Capture) -> Packet {
    match cap.next() {
        Some(Ok(p)) => p,
        other => panic!("expected a packet, got {:?}", other),
    }
}

#[test]
fn little_endian_two_packets() {
    // one little-endian section, one interface, two packets
    let le = true;
    let mut data = shb(le);
    data.extend_from_slice(&idb(1, 65535, &[], le));
    let payload1: Vec<u8> = (0..42).collect();
    let payload2: Vec<u8> = (0..128).collect();
    data.extend_from_slice(&epb(0, 0, 1_500_000, &payload1, 42, le));
    data.extend_from_slice(&epb(0, 0, 2_000_000, &payload2, 128, le));
    let mut cap = Capture::new(data);
    let p1 = next_packet(&mut cap);
    assert_eq!(p1.interface, Some(InterfaceId(0, 0)));
    // the default resolution is microseconds
    assert_eq!(p1.timestamp, Some(WallClock { secs: 1, nanos: 500_000_000 }));
    assert_eq!(p1.data, payload1);
    let p2 = next_packet(&mut cap);
    assert_eq!(p2.interface, Some(InterfaceId(0, 0)));
    assert_eq!(p2.timestamp, Some(WallClock { secs: 2, nanos: 0 }));
    assert_eq!(p2.data, payload2);
    assert!(cap.next().is_none());
}

#[test]
fn packet_data_offset_round_trip() {
    let le = true;
    let mut data = shb(le);
    data.extend_from_slice(&idb(1, 0, &[], le));
    let payload: Vec<u8> = (0..42).collect();
    data.extend_from_slice(&epb(0, 0, 7, &payload, 42, le));
    let copy = data.clone();
    let mut cap = Capture::new(data);
    let p = next_packet(&mut cap);
    // the section header is 28 bytes, the interface description 20; the
    // packet data starts 28 bytes into its own block
    assert_eq!(p.data_start, 28 + 20 + 28);
    assert_eq!(p.data_end, 28 + 20 + 28 + 42);
    assert_eq!(&copy[p.data_start..p.data_end], &p.data[..]);
}

#[test]
fn big_endian_nanosecond_resolution() {
    // a resolution byte of 9 (top bit clear) means 10^9 units per second
    let le = false;
    let mut data = shb(le);
    let opts = opt(9, &[9], le);
    data.extend_from_slice(&idb(1, 65535, &opts, le));
    data.extend_from_slice(&epb(0, 0, 1_000_000_000, &[1, 2, 3, 4], 4, le));
    let mut cap = Capture::new(data);
    let p = next_packet(&mut cap);
    assert_eq!(p.timestamp, Some(WallClock { secs: 1, nanos: 0 }));
}

#[test]
fn base_two_resolution() {
    // a resolution byte of 0x8A (top bit set, exponent 10) means 1024 units
    let le = true;
    let mut data = shb(le);
    let opts = opt(9, &[0x8A], le);
    data.extend_from_slice(&idb(1, 0, &opts, le));
    data.extend_from_slice(&epb(0, 0, 2048, &[1], 1, le));
    let mut cap = Capture::new(data);
    let p = next_packet(&mut cap);
    assert_eq!(p.timestamp, Some(WallClock { secs: 2, nanos: 0 }));
}

#[test]
fn tsresol_too_high_makes_timestamps_unusable() {
    // 10^127 does not fit a 32-bit unsigned: the interface is kept but its
    // packets carry no timestamp
    let le = true;
    let mut data = shb(le);
    let opts = opt(9, &[127], le);
    data.extend_from_slice(&idb(1, 0, &opts, le));
    data.extend_from_slice(&epb(0, 0, 5, &[1], 1, le));
    let mut cap = Capture::new(data);
    let p = next_packet(&mut cap);
    assert_eq!(p.interface, Some(InterfaceId(0, 0)));
    assert_eq!(p.timestamp, None);
}

#[test]
fn whole_second_resolution_is_legal() {
    // exponent zero means whole seconds
    let le = true;
    let mut data = shb(le);
    let opts = opt(9, &[0], le);
    data.extend_from_slice(&idb(1, 0, &opts, le));
    data.extend_from_slice(&epb(0, 0, 3, &[1], 1, le));
    let mut cap = Capture::new(data);
    let p = next_packet(&mut cap);
    assert_eq!(p.timestamp, Some(WallClock { secs: 3, nanos: 0 }));
}

#[test]
fn epb_zero_captured_len() {
    let le = true;
    let mut data = shb(le);
    data.extend_from_slice(&idb(1, 0, &[], le));
    data.extend_from_slice(&epb(0, 0, 1, &[], 42, le));
    let mut cap = Capture::new(data);
    let p = next_packet(&mut cap);
    assert_eq!(p.data.len(), 0);
    assert_eq!(p.data_start, p.data_end);
}

#[test]
fn spb_shorter_than_packet_len() {
    // a simple packet block truncated by the snap length: the stored bytes
    // are fewer than the original packet length
    let le = true;
    let mut data = shb(le);
    data.extend_from_slice(&idb(1, 8, &[], le));
    let mut body = Vec::new();
    body.extend_from_slice(&w32(100, le)); // original length
    body.extend_from_slice(&[1, 2, 3, 4, 5, 6, 7, 8]); // only 8 bytes stored
    data.extend_from_slice(&frame(3, &body, le));
    let mut cap = Capture::new(data);
    let p = next_packet(&mut cap);
    assert_eq!(p.data, vec![1, 2, 3, 4, 5, 6, 7, 8]);
    assert!(p.data.len() < 100);
    assert_eq!(p.interface, None);
    assert_eq!(p.timestamp, None);
}

#[test]
fn spb_padding_not_included() {
    // when the body is longer than the packet (padding), only packet_len
    // bytes are the payload
    let le = true;
    let mut data = shb(le);
    let mut body = Vec::new();
    body.extend_from_slice(&w32(5, le));
    body.extend_from_slice(&[9, 9, 9, 9, 9, 0, 0, 0]); // 5 bytes + 3 padding
    data.extend_from_slice(&frame(3, &body, le));
    let mut cap = Capture::new(data);
    let p = next_packet(&mut cap);
    assert_eq!(p.data, vec![9, 9, 9, 9, 9]);
}

#[test]
fn endianness_change_across_sections() {
    // first section little-endian with one interface, second big-endian
    // with two; a packet of section 2 naming interface 1 resolves there
    let mut data = shb(true);
    data.extend_from_slice(&idb(1, 0, &[], true));
    data.extend_from_slice(&epb(0, 0, 1, &[1, 1], 2, true));
    data.extend_from_slice(&shb(false));
    data.extend_from_slice(&idb(1, 0, &[], false));
    let name = opt(2, b"wan0", false);
    data.extend_from_slice(&idb(9, 0, &name, false));
    data.extend_from_slice(&epb(1, 0, 9, &[2, 2, 2], 3, false));
    let mut cap = Capture::new(data);
    let p1 = next_packet(&mut cap);
    assert_eq!(p1.interface, Some(InterfaceId(0, 0)));
    let p2 = next_packet(&mut cap);
    assert_eq!(p2.interface, Some(InterfaceId(1, 1)));
    assert_eq!(p2.data, vec![2, 2, 2]);
    // the identifier resolves in the current (second) section
    let iface = cap.lookup_interface(InterfaceId(1, 1)).expect("resolves");
    assert_eq!(iface.id, InterfaceId(1, 1));
    assert_eq!(iface.link_type(), LinkType::PPP);
    assert_eq!(iface.name(), "wan0");
    // an identifier of the first section no longer resolves
    assert!(cap.lookup_interface(InterfaceId(0, 0)).is_none());
    assert!(cap.next().is_none());
}

#[test]
fn not_starting_with_shb_fails_immediately() {
    let mut cap = Capture::new(vec![0xAB; 64]);
    assert!(matches!(cap.next(), Some(Err(Error::DidntStartWithSHB))));
    assert!(cap.next().is_none());
    assert!(cap.next().is_none());
}

#[test]
fn empty_input_is_end_of_stream() {
    let mut cap = Capture::new(Vec::new());
    assert!(cap.next().is_none());
}

#[test]
fn epb_captured_len_exceeding_body_is_block_error() {
    let le = true;
    let mut data = shb(le);
    data.extend_from_slice(&idb(1, 0, &[], le));
    // an EPB that claims 100 captured bytes but carries 4
    let mut body = Vec::new();
    body.extend_from_slice(&w32(0, le));
    body.extend_from_slice(&w32(0, le));
    body.extend_from_slice(&w32(1, le));
    body.extend_from_slice(&w32(100, le));
    body.extend_from_slice(&w32(100, le));
    body.extend_from_slice(&[1, 2, 3, 4]);
    data.extend_from_slice(&frame(6, &body, le));
    // the next well-formed block is still delivered
    data.extend_from_slice(&epb(0, 0, 5, &[7, 7], 2, le));
    let mut cap = Capture::new(data);
    assert!(matches!(
        cap.next(),
        Some(Err(Error::Block(BlockError::TruncatedBlock)))
    ));
    let p = next_packet(&mut cap);
    assert_eq!(p.data, vec![7, 7]);
    assert!(cap.next().is_none());
}

#[test]
fn truncated_option_keeps_decoded_prefix() {
    // an interface description whose option list breaks off mid-record:
    // what was decoded before the truncation is kept, and later blocks are
    // unaffected
    let le = true;
    let mut data = shb(le);
    let mut opts = Vec::new();
    opts.extend_from_slice(&opt(2, b"eth0", le));
    opts.extend_from_slice(&w16(3, le));
    opts.extend_from_slice(&w16(100, le)); // promises 100 bytes, has none
    data.extend_from_slice(&idb(1, 0, &opts, le));
    data.extend_from_slice(&epb(0, 0, 1, &[5], 1, le));
    let mut cap = Capture::new(data);
    let p = next_packet(&mut cap);
    assert_eq!(p.interface, Some(InterfaceId(0, 0)));
    let iface = cap.lookup_interface(InterfaceId(0, 0)).expect("resolves");
    assert_eq!(iface.name(), "eth0");
    assert_eq!(iface.description(), "");
}

#[test]
fn trailing_length_mismatch_is_fatal() {
    let le = true;
    let mut data = shb(le);
    // a block whose trailing length disagrees with its leading length
    let mut bad = Vec::new();
    bad.extend_from_slice(&w32(6, le));
    bad.extend_from_slice(&w32(12, le));
    bad.extend_from_slice(&w32(16, le));
    data.extend_from_slice(&bad);
    data.extend_from_slice(&epb(0, 0, 1, &[5], 1, le));
    let mut cap = Capture::new(data);
    assert!(matches!(
        cap.next(),
        Some(Err(Error::Frame(FrameError::BlockLengthMismatch(12, 16))))
    ));
    // the stream is desynchronised: everything after is end-of-stream
    assert!(cap.next().is_none());
    assert!(cap.next().is_none());
}

#[test]
fn corrupt_shb_still_starts_section() {
    let le = true;
    // a section header whose body is too short for its fixed fields
    let mut body = Vec::new();
    body.extend_from_slice(&[0x4D, 0x3C, 0x2B, 0x1A]);
    body.extend_from_slice(&w16(1, le));
    body.extend_from_slice(&w16(0, le));
    let mut data = frame(0x0A0D_0D0A, &body, le);
    data.extend_from_slice(&idb(1, 0, &[], le));
    data.extend_from_slice(&epb(0, 0, 1, &[3], 1, le));
    let mut cap = Capture::new(data);
    assert!(matches!(
        cap.next(),
        Some(Err(Error::Block(BlockError::TruncatedBlock)))
    ));
    // the section exists: its interface table fills and packets resolve
    let p = next_packet(&mut cap);
    assert_eq!(p.interface, Some(InterfaceId(0, 0)));
}

#[test]
fn corrupt_idb_leaves_placeholder() {
    let le = true;
    let mut data = shb(le);
    data.extend_from_slice(&frame(1, &[0; 4], le)); // too short for an IDB
    data.extend_from_slice(&idb(1, 0, &[], le));
    data.extend_from_slice(&epb(1, 0, 1, &[6], 1, le));
    data.extend_from_slice(&epb(0, 0, 1, &[7], 1, le));
    let mut cap = Capture::new(data);
    assert!(matches!(
        cap.next(),
        Some(Err(Error::Block(BlockError::TruncatedBlock)))
    ));
    // the good interface keeps index 1 because the corrupt one holds 0
    let p1 = next_packet(&mut cap);
    assert_eq!(p1.interface, Some(InterfaceId(0, 1)));
    assert!(p1.timestamp.is_some());
    // the placeholder resolves but its timestamps are unusable
    let p2 = next_packet(&mut cap);
    assert_eq!(p2.interface, Some(InterfaceId(0, 0)));
    assert_eq!(p2.timestamp, None);
}

#[test]
fn packet_without_interface_table_entry() {
    let le = true;
    let mut data = shb(le);
    data.extend_from_slice(&epb(0, 0, 1, &[1, 2], 2, le));
    let mut cap = Capture::new(data);
    let p = next_packet(&mut cap);
    assert_eq!(p.interface, None);
    assert_eq!(p.timestamp, None);
    assert_eq!(p.data, vec![1, 2]);
}

#[test]
fn unparsed_blocks_are_skipped() {
    let le = true;
    let mut data = shb(le);
    data.extend_from_slice(&frame(7, &[], le)); // IRIG timestamp
    data.extend_from_slice(&frame(8, &[0; 4], le)); // ARINC 429
    data.extend_from_slice(&frame(0x0201, &[0; 8], le)); // Sysdig
    data.extend_from_slice(&frame(0xDEAD, &[], le)); // unknown
    data.extend_from_slice(&idb(1, 0, &[], le));
    data.extend_from_slice(&epb(0, 0, 1, &[4], 1, le));
    let mut cap = Capture::new(data);
    let p = next_packet(&mut cap);
    assert_eq!(p.data, vec![4]);
}

#[test]
fn statistics_attach_to_interface() {
    let le = true;
    let mut data = shb(le);
    data.extend_from_slice(&idb(1, 0, &[], le));
    let mut body = Vec::new();
    body.extend_from_slice(&w32(0, le));
    body.extend_from_slice(&w32(0, le));
    body.extend_from_slice(&w32(2_000_000, le));
    body.extend_from_slice(&opt(4, &7u64.to_le_bytes(), le)); // ifrecv
    body.extend_from_slice(&opt(0, &[], le));
    data.extend_from_slice(&frame(5, &body, le));
    data.extend_from_slice(&epb(0, 0, 1, &[1], 1, le));
    let mut cap = Capture::new(data);
    let _p = next_packet(&mut cap);
    let iface = cap.lookup_interface(InterfaceId(0, 0)).expect("resolves");
    assert_eq!(iface.ifrecv(), Some(7));
    assert_eq!(iface.ifdrop(), None);
    // the statistics timestamp resolves at the interface's resolution
    assert_eq!(
        iface.stats_timestamp(),
        Some(WallClock { secs: 2, nanos: 0 })
    );
}

#[test]
fn rewind_restarts_iteration() {
    let le = true;
    let mut data = shb(le);
    data.extend_from_slice(&idb(1, 0, &[], le));
    data.extend_from_slice(&epb(0, 0, 1, &[1, 2, 3], 3, le));
    let mut cap = Capture::new(data);
    let p1 = next_packet(&mut cap);
    assert!(cap.next().is_none());
    cap.rewind();
    let p2 = next_packet(&mut cap);
    assert_eq!(p1, p2);
}

#[test]
fn advance_and_get() {
    let le = true;
    let mut data = shb(le);
    data.extend_from_slice(&idb(1, 0, &[], le));
    data.extend_from_slice(&epb(0, 0, 1, &[8, 9], 2, le));
    let mut cap = Capture::new(data);
    assert!(cap.get().is_none()); // nothing before the first advance
    assert!(cap.advance().is_ok());
    let a = cap.get().expect("a packet");
    let b = cap.get().expect("get does not consume");
    assert_eq!(a, b);
    assert_eq!(a.data, vec![8, 9]);
    assert!(cap.advance().is_ok());
    assert!(cap.get().is_none()); // end of stream
}

#[test]
fn adversarial_bytes_never_panic() {
    // decoding arbitrary bytes terminates without panicking
    let mut seed: u64 = 0x2545F4914F6CDD1D;
    for case in 0..64 {
        let len = (case * 7) % 257;
        let mut bytes = Vec::with_capacity(len);
        for _ in 0..len {
            seed = seed.wrapping_mul(6364136223846793005).wrapping_add(1442695040888963407);
            bytes.push((seed >> 33) as u8);
        }
        // half the cases start like a real capture to go deeper
        if case % 2 == 0 {
            let mut with_shb = shb(true);
            with_shb.extend_from_slice(&bytes);
            bytes = with_shb;
        }
        let mut cap = Capture::new(bytes);
        let mut guard = 0;
        while let Some(item) = cap.next() {
            let _ = item;
            guard += 1;
            assert!(guard < 1000);
        }
    }
}
