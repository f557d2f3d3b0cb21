//! Block- and primitive-level tests: integer reads, option lists, and the
//! individual block decoders through the block reader.

use pcarp::block::{Block, BlockType};
use pcarp::error::{BlockError, Error, FrameError};
use pcarp::link_type::LinkType;
use pcarp::rdr::BlockReader;
use pcarp::util::{pad_len, read_u16, read_u32, read_u64, read_ts, require_bytes, Endianness};
use pcarp::opts::{bytes_to_u32, bytes_to_u64, is_custom_code, parse_options};

fn w32(v: u32, le: bool) -> [u8; 4] {
    if le {
        v.to_le_bytes()
    } else {
        v.to_be_bytes()
    }
}

fn w16(v: u16, le: bool) -> [u8; 2] {
    if le {
        v.to_le_bytes()
    } else {
        v.to_be_bytes()
    }
}

/// Frame a block: type code, total length, body (already padded), trailing
/// total length.
fn frame(ty: u32, body: &[u8], le: bool) -> Vec<u8> {
    let total = (12 + body.len()) as u32;
    let mut v = Vec::new();
    v.extend_from_slice(&w32(ty, le));
    v.extend_from_slice(&w32(total, le));
    v.extend_from_slice(body);
    v.extend_from_slice(&w32(total, le));
    v
}

/// A minimal section header block: byte-order magic, version 1.0, unknown
/// section length, no options.
fn shb(le: bool) -> Vec<u8> {
    let mut body = Vec::new();
    if le {
        body.extend_from_slice(&[0x4D, 0x3C, 0x2B, 0x1A]);
    } else {
        body.extend_from_slice(&[0x1A, 0x2B, 0x3C, 0x4D]);
    }
    body.extend_from_slice(&w16(1, le));
    body.extend_from_slice(&w16(0, le));
    body.extend_from_slice(&[0xFF; 8]); // section length -1: unknown
    frame(0x0A0D_0D0A, &body, le)
}

/// An option record with its padding.
fn opt(code: u16, val: &[u8], le: bool) -> Vec<u8> {
    let mut v = Vec::new();
    v.extend_from_slice(&w16(code, le));
    v.extend_from_slice(&w16(val.len() as u16, le));
    v.extend_from_slice(val);
    while v.len() % 4 != 0 {
        v.push(0);
    }
    v
}

fn idb(link_type: u16, snap: u32, opts: &[u8], le: bool) -> Vec<u8> {
    let mut body = Vec::new();
    body.extend_from_slice(&w16(link_type, le));
    body.extend_from_slice(&[0, 0]);
    body.extend_from_slice(&w32(snap, le));
    body.extend_from_slice(opts);
    frame(1, &body, le)
}

#[test]
fn read_integers_both_orders() {
    let buf = [0x01, 0x02, 0x03, 0x04, 0x05, 0x06, 0x07, 0x08];
    assert_eq!(read_u16(&buf, 0, Endianness::Big), 0x0102);
    assert_eq!(read_u16(&buf, 0, Endianness::Little), 0x0201);
    assert_eq!(read_u32(&buf, 0, Endianness::Big), 0x01020304);
    assert_eq!(read_u32(&buf, 0, Endianness::Little), 0x04030201);
    assert_eq!(read_u64(&buf, 0, Endianness::Big), 0x0102030405060708);
    assert_eq!(read_u64(&buf, 0, Endianness::Little), 0x0807060504030201);
    // a timestamp reads the high word first whatever the byte order
    assert_eq!(read_ts(&buf, 0, Endianness::Little), (0x04030201u64 << 32) | 0x08070605);
}

#[test]
fn require_bytes_reports_lengths() {
    assert!(require_bytes(&[1, 2, 3], 3).is_ok());
    match require_bytes(&[1, 2, 3], 5) {
        Err(Error::NotEnoughBytes { expected, actual }) => {
            assert_eq!(expected, 5);
            assert_eq!(actual, 3);
        }
        other => panic!("unexpected: {:?}", other),
    }
}

#[test]
fn pad_len_rounds_to_four() {
    assert_eq!(pad_len(0), 0);
    assert_eq!(pad_len(1), 3);
    assert_eq!(pad_len(2), 2);
    assert_eq!(pad_len(3), 1);
    assert_eq!(pad_len(4), 0);
    assert_eq!(pad_len(5), 3);
}

#[test]
fn endianness_magic() {
    assert_eq!(
        Endianness::parse_from_magic(&[0x1A, 0x2B, 0x3C, 0x4D]),
        Ok(Endianness::Big)
    );
    assert_eq!(
        Endianness::parse_from_magic(&[0x4D, 0x3C, 0x2B, 0x1A]),
        Ok(Endianness::Little)
    );
    assert_eq!(
        Endianness::parse_from_magic(&[0, 1, 2, 3]),
        Err(FrameError::DidntUnderstandMagicBytes([0, 1, 2, 3]))
    );
}

#[test]
fn link_type_codes() {
    assert_eq!(LinkType::from_u16(0), LinkType::NULL);
    assert_eq!(LinkType::from_u16(1), LinkType::ETHERNET);
    assert_eq!(LinkType::from_u16(101), LinkType::RAW);
    // the libpcap aliases for raw IP
    assert_eq!(LinkType::from_u16(12), LinkType::RAW);
    assert_eq!(LinkType::from_u16(14), LinkType::RAW);
    assert_eq!(LinkType::from_u16(147), LinkType::Unknown(147));
}

#[test]
fn option_list_records() {
    let le = true;
    let mut buf = Vec::new();
    buf.extend_from_slice(&opt(1, b"note", le)); // a comment is a record too
    buf.extend_from_slice(&opt(9, &[6], le));
    buf.extend_from_slice(&opt(0, &[], le)); // terminator
    buf.extend_from_slice(&[1, 2, 3, 4]); // trailing bytes are tolerated
    let records = parse_options(&buf, Endianness::Little);
    assert_eq!(records.len(), 2);
    assert_eq!(records[0].0, 1);
    assert_eq!(records[0].1, b"note".to_vec());
    assert_eq!(records[1].0, 9);
    assert_eq!(records[1].1, vec![6]);
}

#[test]
fn option_list_truncated_record_ends_list() {
    let le = true;
    let mut buf = Vec::new();
    buf.extend_from_slice(&opt(9, &[6], le));
    // a record that promises 100 bytes but has none
    buf.extend_from_slice(&w16(3, le));
    buf.extend_from_slice(&w16(100, le));
    let records = parse_options(&buf, Endianness::Little);
    assert_eq!(records.len(), 1);
    assert_eq!(records[0].0, 9);
}

#[test]
fn option_value_sizes() {
    assert_eq!(bytes_to_u32(&[1, 0, 0, 0], Endianness::Little), Some(1));
    assert_eq!(bytes_to_u32(&[1, 0, 0], Endianness::Little), None);
    assert_eq!(bytes_to_u64(&[2, 0, 0, 0, 0, 0, 0, 0], Endianness::Little), Some(2));
    assert_eq!(bytes_to_u64(&[2, 0, 0, 0], Endianness::Little), None);
    assert!(is_custom_code(2988));
    assert!(is_custom_code(19373));
    assert!(!is_custom_code(9));
}

#[test]
fn reader_sees_section_header_fields() {
    let le = true;
    let mut data = shb(le);
    data.extend_from_slice(&idb(1, 65535, &[], le));
    let mut rdr = BlockReader::new(data);
    match rdr.try_next() {
        Some(Ok(fb)) => {
            assert_eq!(fb.start, 0);
            assert_eq!(fb.total_len, 28);
            assert_eq!(fb.block_type, BlockType::SectionHeader);
            match fb.block {
                Ok(Block::SectionHeader(s)) => {
                    assert_eq!(s.endianness, Endianness::Little);
                    assert_eq!(s.major_version, 1);
                    assert_eq!(s.minor_version, 0);
                    assert_eq!(s.section_length, None);
                }
                other => panic!("unexpected: {:?}", other),
            }
        }
        other => panic!("unexpected: {:?}", other),
    }
    match rdr.try_next() {
        Some(Ok(fb)) => match fb.block {
            Ok(Block::InterfaceDescription(d)) => {
                assert_eq!(d.link_type, LinkType::ETHERNET);
                assert_eq!(d.snap_len, Some(65535));
                assert_eq!(d.units_per_sec, Some(1_000_000));
            }
            other => panic!("unexpected: {:?}", other),
        },
        other => panic!("unexpected: {:?}", other),
    }
    assert!(rdr.try_next().is_none());
}

#[test]
fn empty_body_block_is_framed() {
    // a block of total length exactly 12 has an empty body
    let le = true;
    let mut data = shb(le);
    data.extend_from_slice(&frame(0x0BAD, &[], le));
    let mut rdr = BlockReader::new(data);
    assert!(matches!(rdr.try_next(), Some(Ok(_))));
    match rdr.try_next() {
        Some(Ok(fb)) => {
            assert_eq!(fb.total_len, 12);
            assert_eq!(fb.block_type, BlockType::Custom);
            assert!(matches!(fb.block, Ok(Block::Unparsed(BlockType::Custom))));
        }
        other => panic!("unexpected: {:?}", other),
    }
    assert!(rdr.try_next().is_none());
}

#[test]
fn unknown_and_recognised_codes() {
    assert_eq!(BlockType::from_u32(0x0201), BlockType::Sysdig);
    assert_eq!(BlockType::from_u32(0x0213), BlockType::Sysdig);
    assert_eq!(BlockType::from_u32(7), BlockType::IRIGTimestamp);
    assert_eq!(BlockType::from_u32(8), BlockType::Arinc429);
    assert_eq!(BlockType::from_u32(9), BlockType::SystemdJournalExport);
    assert_eq!(BlockType::from_u32(0xA), BlockType::DecryptionSecrets);
    assert_eq!(BlockType::from_u32(0x4000_0102), BlockType::Hone);
    assert_eq!(BlockType::from_u32(0xDEAD), BlockType::Unknown(0xDEAD));
}

#[test]
fn reader_not_started_with_shb() {
    let mut rdr = BlockReader::new(vec![9, 9, 9, 9, 9, 9, 9, 9, 9, 9, 9, 9]);
    assert!(matches!(rdr.try_next(), Some(Err(Error::DidntStartWithSHB))));
    assert!(rdr.try_next().is_none());
}

#[test]
fn reader_bad_magic_is_fatal() {
    let le = true;
    let mut body = vec![0, 1, 2, 3]; // not a byte-order magic
    body.extend_from_slice(&w16(1, le));
    body.extend_from_slice(&w16(0, le));
    body.extend_from_slice(&[0xFF; 8]);
    let data = frame(0x0A0D_0D0A, &body, le);
    let mut rdr = BlockReader::new(data);
    assert!(matches!(
        rdr.try_next(),
        Some(Err(Error::Frame(FrameError::DidntUnderstandMagicBytes([0, 1, 2, 3]))))
    ));
    assert!(rdr.try_next().is_none());
}

#[test]
fn reader_block_length_too_small() {
    let le = true;
    let mut data = shb(le);
    // a block whose total length claims 8: below the 12-byte minimum
    data.extend_from_slice(&w32(6, le));
    data.extend_from_slice(&w32(8, le));
    data.extend_from_slice(&[0; 4]);
    let mut rdr = BlockReader::new(data);
    assert!(matches!(rdr.try_next(), Some(Ok(_))));
    assert!(matches!(
        rdr.try_next(),
        Some(Err(Error::Frame(FrameError::BlockLengthTooSmall(8))))
    ));
    assert!(rdr.try_next().is_none());
}

#[test]
fn reader_rewind_restarts() {
    let le = true;
    let data = shb(le);
    let mut rdr = BlockReader::new(data);
    assert!(matches!(rdr.try_next(), Some(Ok(_))));
    assert!(rdr.try_next().is_none());
    rdr.rewind();
    assert!(matches!(rdr.try_next(), Some(Ok(_))));
}

#[test]
fn shb_strings_decoded() {
    let le = false; // big-endian section
    let mut body = Vec::new();
    body.extend_from_slice(&[0x1A, 0x2B, 0x3C, 0x4D]);
    body.extend_from_slice(&w16(1, le));
    body.extend_from_slice(&w16(0, le));
    body.extend_from_slice(&[0xFF; 8]);
    body.extend_from_slice(&opt(2, b"rig", le));
    body.extend_from_slice(&opt(3, b"os9", le));
    body.extend_from_slice(&opt(4, b"app", le));
    body.extend_from_slice(&opt(0, &[], le));
    let data = frame(0x0A0D_0D0A, &body, le);
    let mut rdr = BlockReader::new(data);
    match rdr.try_next() {
        Some(Ok(fb)) => match fb.block {
            Ok(Block::SectionHeader(s)) => {
                assert_eq!(s.shb_hardware, "rig");
                assert_eq!(s.shb_os, "os9");
                assert_eq!(s.shb_userappl, "app");
            }
            other => panic!("unexpected: {:?}", other),
        },
        other => panic!("unexpected: {:?}", other),
    }
}

#[test]
fn shb_negative_section_length_is_unknown() {
    let le = true;
    let mut body = Vec::new();
    body.extend_from_slice(&[0x4D, 0x3C, 0x2B, 0x1A]);
    body.extend_from_slice(&w16(1, le));
    body.extend_from_slice(&w16(0, le));
    body.extend_from_slice(&(-2i64).to_le_bytes()); // negative but not -1
    let data = frame(0x0A0D_0D0A, &body, le);
    let mut rdr = BlockReader::new(data);
    match rdr.try_next() {
        Some(Ok(fb)) => match fb.block {
            Ok(Block::SectionHeader(s)) => assert_eq!(s.section_length, None),
            other => panic!("unexpected: {:?}", other),
        },
        other => panic!("unexpected: {:?}", other),
    }
}

#[test]
fn shb_known_section_length() {
    let le = true;
    let mut body = Vec::new();
    body.extend_from_slice(&[0x4D, 0x3C, 0x2B, 0x1A]);
    body.extend_from_slice(&w16(1, le));
    body.extend_from_slice(&w16(0, le));
    body.extend_from_slice(&96i64.to_le_bytes());
    let data = frame(0x0A0D_0D0A, &body, le);
    let mut rdr = BlockReader::new(data);
    match rdr.try_next() {
        Some(Ok(fb)) => match fb.block {
            Ok(Block::SectionHeader(s)) => assert_eq!(s.section_length, Some(96)),
            other => panic!("unexpected: {:?}", other),
        },
        other => panic!("unexpected: {:?}", other),
    }
}

#[test]
fn idb_name_is_lossily_decoded() {
    // an invalid UTF-8 byte becomes the replacement character
    let le = true;
    let mut data = shb(le);
    let mut opts = Vec::new();
    opts.extend_from_slice(&opt(2, &[0xFF, b'a'], le));
    data.extend_from_slice(&idb(1, 0, &opts, le));
    let mut rdr = BlockReader::new(data);
    assert!(matches!(rdr.try_next(), Some(Ok(_))));
    match rdr.try_next() {
        Some(Ok(fb)) => match fb.block {
            Ok(Block::InterfaceDescription(d)) => {
                assert_eq!(d.if_name, "\u{FFFD}a");
                assert_eq!(d.snap_len, None); // zero means no limit
            }
            other => panic!("unexpected: {:?}", other),
        },
        other => panic!("unexpected: {:?}", other),
    }
}

#[test]
fn idb_addresses_and_speeds() {
    let le = true;
    let mut data = shb(le);
    let mut opts = Vec::new();
    opts.extend_from_slice(&opt(4, &[10, 0, 0, 1, 255, 255, 255, 0], le));
    opts.extend_from_slice(&opt(4, &[10, 0, 0, 2, 255, 255, 255, 0], le));
    opts.extend_from_slice(&opt(6, &[1, 2, 3, 4, 5, 6], le));
    opts.extend_from_slice(&opt(8, &100u64.to_le_bytes(), le));
    opts.extend_from_slice(&opt(13, &[4], le));
    data.extend_from_slice(&idb(1, 96, &opts, le));
    let mut rdr = BlockReader::new(data);
    assert!(matches!(rdr.try_next(), Some(Ok(_))));
    match rdr.try_next() {
        Some(Ok(fb)) => match fb.block {
            Ok(Block::InterfaceDescription(d)) => {
                assert_eq!(d.if_ipv4_addr.len(), 2);
                assert_eq!(d.if_ipv4_addr[1][3], 2);
                assert_eq!(d.if_mac_addr, Some(vec![1, 2, 3, 4, 5, 6]));
                assert_eq!(d.if_speed, Some(100));
                assert_eq!(d.if_fcslen, Some(vec![4]));
                assert_eq!(d.snap_len, Some(96));
            }
            other => panic!("unexpected: {:?}", other),
        },
        other => panic!("unexpected: {:?}", other),
    }
}

#[test]
fn idb_wrong_sized_address_is_skipped() {
    let le = true;
    let mut data = shb(le);
    let opts = opt(6, &[1, 2, 3], le); // a MAC address must be 6 bytes
    data.extend_from_slice(&idb(1, 0, &opts, le));
    let mut rdr = BlockReader::new(data);
    assert!(matches!(rdr.try_next(), Some(Ok(_))));
    match rdr.try_next() {
        Some(Ok(fb)) => match fb.block {
            Ok(Block::InterfaceDescription(d)) => assert_eq!(d.if_mac_addr, None),
            other => panic!("unexpected: {:?}", other),
        },
        other => panic!("unexpected: {:?}", other),
    }
}

#[test]
fn epb_too_short_body_is_block_error() {
    let le = true;
    let mut data = shb(le);
    data.extend_from_slice(&frame(6, &[0; 16], le)); // EPB needs 20 fixed bytes
    let mut rdr = BlockReader::new(data);
    assert!(matches!(rdr.try_next(), Some(Ok(_))));
    match rdr.try_next() {
        Some(Ok(fb)) => {
            assert_eq!(fb.block_type, BlockType::EnhancedPacket);
            assert_eq!(fb.block, Err(BlockError::TruncatedBlock));
        }
        other => panic!("unexpected: {:?}", other),
    }
}

#[test]
fn opb_drops_sentinel_and_timestamp() {
    let le = true;
    let mut data = shb(le);
    let mut body = Vec::new();
    body.extend_from_slice(&w16(0, le)); // interface 0
    body.extend_from_slice(&w16(0xFFFF, le)); // drops unknown
    body.extend_from_slice(&w32(1, le)); // timestamp high
    body.extend_from_slice(&w32(2, le)); // timestamp low
    body.extend_from_slice(&w32(4, le)); // captured
    body.extend_from_slice(&w32(4, le)); // original
    body.extend_from_slice(&[9, 8, 7, 6]);
    data.extend_from_slice(&frame(2, &body, le));
    let mut rdr = BlockReader::new(data);
    assert!(matches!(rdr.try_next(), Some(Ok(_))));
    match rdr.try_next() {
        Some(Ok(fb)) => match fb.block {
            Ok(Block::ObsoletePacket(p)) => {
                assert_eq!(p.drops_count, None);
                // the high word is shifted by a full 32 bits
                assert_eq!(p.timestamp.0, (1u64 << 32) | 2);
                assert_eq!(p.packet_data, vec![9, 8, 7, 6]);
            }
            other => panic!("unexpected: {:?}", other),
        },
        other => panic!("unexpected: {:?}", other),
    }
}

#[test]
fn nrb_keeps_records_verbatim() {
    let le = true;
    let mut data = shb(le);
    data.extend_from_slice(&frame(4, &[1, 2, 3, 4, 5, 6, 7, 8], le));
    let mut rdr = BlockReader::new(data);
    assert!(matches!(rdr.try_next(), Some(Ok(_))));
    match rdr.try_next() {
        Some(Ok(fb)) => match fb.block {
            Ok(Block::NameResolution(n)) => {
                assert_eq!(n.record_values, vec![1, 2, 3, 4, 5, 6, 7, 8]);
            }
            other => panic!("unexpected: {:?}", other),
        },
        other => panic!("unexpected: {:?}", other),
    }
}

#[test]
fn into_pkt_extracts_packet_content() {
    let le = true;
    let mut data = shb(le);
    let mut body = Vec::new();
    body.extend_from_slice(&w32(0, le)); // interface 0
    body.extend_from_slice(&w32(0, le)); // timestamp high
    body.extend_from_slice(&w32(77, le)); // timestamp low
    body.extend_from_slice(&w32(4, le)); // captured
    body.extend_from_slice(&w32(4, le)); // original
    body.extend_from_slice(&[1, 2, 3, 4]);
    data.extend_from_slice(&frame(6, &body, le));
    let mut rdr = BlockReader::new(data);
    assert!(matches!(rdr.try_next(), Some(Ok(_))));
    match rdr.try_next() {
        Some(Ok(fb)) => {
            let block = fb.block.expect("decodes");
            match block.into_pkt() {
                Some((meta, bytes)) => {
                    let (ts, iface) = meta.expect("an enhanced packet has both");
                    assert_eq!(ts.0, 77);
                    assert_eq!(iface, 0);
                    assert_eq!(bytes, vec![1, 2, 3, 4]);
                }
                None => panic!("an enhanced packet has content"),
            }
        }
        other => panic!("unexpected: {:?}", other),
    }
}

#[test]
fn isb_counters_decoded() {
    let le = true;
    let mut data = shb(le);
    let mut body = Vec::new();
    body.extend_from_slice(&w32(0, le));
    body.extend_from_slice(&w32(0, le)); // timestamp high
    body.extend_from_slice(&w32(50, le)); // timestamp low
    body.extend_from_slice(&opt(4, &7u64.to_le_bytes(), le)); // ifrecv
    body.extend_from_slice(&opt(5, &1u64.to_le_bytes(), le)); // ifdrop
    body.extend_from_slice(&opt(0, &[], le));
    data.extend_from_slice(&frame(5, &body, le));
    let mut rdr = BlockReader::new(data);
    assert!(matches!(rdr.try_next(), Some(Ok(_))));
    match rdr.try_next() {
        Some(Ok(fb)) => match fb.block {
            Ok(Block::InterfaceStatistics(s)) => {
                assert_eq!(s.timestamp.0, 50);
                assert_eq!(s.isb_ifrecv, Some(7));
                assert_eq!(s.isb_ifdrop, Some(1));
                assert_eq!(s.isb_usrdeliv, None);
            }
            other => panic!("unexpected: {:?}", other),
        },
        other => panic!("unexpected: {:?}", other),
    }
}
