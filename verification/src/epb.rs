//! The enhanced packet block: the standard container for a captured packet.

use vstd::prelude::*;
use crate::error::BlockError;
use crate::opts::bytes_to_u32;
use crate::opts::bytes_to_u64;
use crate::opts::opts_view;
use crate::opts::parse_options;
use crate::opts::spec_bytes_to_u32;
use crate::opts::spec_bytes_to_u64;
use crate::opts::spec_options;
use crate::util::Endianness;
use crate::util::Timestamp;
use crate::util::copy_range;
use crate::util::pad4;
use crate::util::pad_len;
use crate::util::read_ts;
use crate::util::read_u32;
use crate::util::spec_ts;
use crate::util::spec_u32;

verus! {

/// A decoded enhanced packet block.
#[derive(Clone, PartialEq, Eq, Debug)]
pub struct EnhancedPacket {
    /// Index of the interface this packet came from, within the current
    /// section's interface table.
    pub interface_id: u32,
    /// Units since the epoch; the unit comes from the interface.
    pub timestamp: Timestamp,
    /// Bytes stored in this block, excluding padding.
    pub captured_len: u32,
    /// Length of the packet as transmitted; larger than `captured_len` when
    /// the capture truncated it.
    pub packet_len: u32,
    /// The captured bytes.
    pub packet_data: Vec<u8>,
    /// Link-layer flags word; zero when absent.
    pub epb_flags: u32,
    /// Hashes of the packet, each value verbatim.
    pub epb_hash: Vec<Vec<u8>>,
    /// Packets lost between this one and the preceding one.
    pub epb_dropcount: Option<u64>,
    /// A correlation identifier for the packet.
    pub epb_packetid: Option<u64>,
    /// Which interface queue received the packet.
    pub epb_queue: Option<u32>,
    /// Verdict records, each value verbatim.
    pub epb_verdict: Vec<Vec<u8>>,
}

/// The mathematical shape of a decoded enhanced packet block.
#[verifier::ext_equal]
pub struct EnhancedPacketModel {
    pub interface_id: u32,
    pub timestamp: Timestamp,
    pub captured_len: u32,
    pub packet_len: u32,
    pub packet_data: Seq<u8>,
    pub epb_flags: u32,
    pub epb_hash: Seq<Seq<u8>>,
    pub epb_dropcount: Option<u64>,
    pub epb_packetid: Option<u64>,
    pub epb_queue: Option<u32>,
    pub epb_verdict: Seq<Seq<u8>>,
}

impl View for EnhancedPacket {
    type V = EnhancedPacketModel;

    open spec fn view(&self) -> EnhancedPacketModel {
        EnhancedPacketModel {
            interface_id: self.interface_id,
            timestamp: self.timestamp,
            captured_len: self.captured_len,
            packet_len: self.packet_len,
            packet_data: self.packet_data@,
            epb_flags: self.epb_flags,
            epb_hash: self.epb_hash@.map(|i: int, v: Vec<u8>| v@),
            epb_dropcount: self.epb_dropcount,
            epb_packetid: self.epb_packetid,
            epb_queue: self.epb_queue,
            epb_verdict: self.epb_verdict@.map(|i: int, v: Vec<u8>| v@),
        }
    }
}

/// One option record applied to a partially decoded enhanced packet block.
pub open spec fn epb_apply(
    m: EnhancedPacketModel,
    code: u16,
    v: Seq<u8>,
    e: Endianness,
) -> EnhancedPacketModel {
    if code == 2 {
        match spec_bytes_to_u32(v, e) {
            Some(x) => EnhancedPacketModel { epb_flags: x, ..m },
            None => m,
        }
    } else if code == 3 {
        EnhancedPacketModel { epb_hash: m.epb_hash.push(v), ..m }
    } else if code == 4 {
        EnhancedPacketModel { epb_dropcount: spec_bytes_to_u64(v, e), ..m }
    } else if code == 5 {
        EnhancedPacketModel { epb_packetid: spec_bytes_to_u64(v, e), ..m }
    } else if code == 6 {
        EnhancedPacketModel { epb_queue: spec_bytes_to_u32(v, e), ..m }
    } else if code == 7 {
        EnhancedPacketModel { epb_verdict: m.epb_verdict.push(v), ..m }
    } else {
        m
    }
}

/// The option records of `opts`, applied left to right.
pub open spec fn epb_fold(
    m: EnhancedPacketModel,
    opts: Seq<(u16, Seq<u8>)>,
    e: Endianness,
) -> EnhancedPacketModel
    decreases opts.len(),
{
    if opts.len() == 0 {
        m
    } else {
        epb_fold(epb_apply(m, opts[0].0, opts[0].1, e), opts.skip(1), e)
    }
}

/// Option records never change the packet bytes.
pub proof fn lemma_epb_fold_data(m: EnhancedPacketModel, opts: Seq<(u16, Seq<u8>)>, e: Endianness)
    ensures
        epb_fold(m, opts, e).packet_data == m.packet_data,
    decreases opts.len(),
{
    if opts.len() == 0 {
    } else {
        lemma_epb_fold_data(epb_apply(m, opts[0].0, opts[0].1, e), opts.skip(1), e);
    }
}

/// The enhanced packet block before any option is applied.  `cap` is the
/// captured length already read from the body.
pub open spec fn epb_base(body: Seq<u8>, e: Endianness) -> EnhancedPacketModel {
    let cap = spec_u32(body, 12, e) as int;
    EnhancedPacketModel {
        interface_id: spec_u32(body, 0, e),
        timestamp: Timestamp(spec_ts(body, 4, e)),
        captured_len: spec_u32(body, 12, e),
        packet_len: spec_u32(body, 16, e),
        packet_data: body.subrange(20, 20 + cap),
        epb_flags: 0,
        epb_hash: Seq::empty(),
        epb_dropcount: None,
        epb_packetid: None,
        epb_queue: None,
        epb_verdict: Seq::empty(),
    }
}

/// What decoding an enhanced packet block body yields.  A captured length
/// that exceeds the bytes present is a block error.
pub open spec fn spec_parse_epb(body: Seq<u8>, e: Endianness) -> Result<
    EnhancedPacketModel,
    BlockError,
> {
    if body.len() < 20 {
        Err(BlockError::TruncatedBlock)
    } else {
        let cap = spec_u32(body, 12, e) as int;
        if body.len() < 20 + cap + pad4(cap) {
            Err(BlockError::TruncatedBlock)
        } else {
            Ok(epb_fold(epb_base(body, e), spec_options(body.skip(20 + cap + pad4(cap)), e), e))
        }
    }
}

impl EnhancedPacket {
    /// Decode an enhanced packet block body.
    pub fn parse(body: &[u8], e: Endianness) -> (r: Result<EnhancedPacket, BlockError>)
        ensures
            match r {
                Ok(b) => spec_parse_epb(body@, e) == Ok::<EnhancedPacketModel, BlockError>(b@),
                Err(er) => spec_parse_epb(body@, e) == Err::<EnhancedPacketModel, BlockError>(er),
            },
    {
        let n: usize = body.len();
        if n < 20 {
            return Err(BlockError::TruncatedBlock);
        }
        let captured_len = read_u32(body, 12, e);
        let cap = captured_len as usize;
        let pad = pad_len(cap);
        if n - 20 < cap || (n - 20 - cap) < pad {
            return Err(BlockError::TruncatedBlock);
        }
        let packet_data = copy_range(body, 20, 20 + cap);
        let mut m = EnhancedPacket {
            interface_id: read_u32(body, 0, e),
            timestamp: Timestamp(read_ts(body, 4, e)),
            captured_len,
            packet_len: read_u32(body, 16, e),
            packet_data,
            epb_flags: 0,
            epb_hash: Vec::new(),
            epb_dropcount: None,
            epb_packetid: None,
            epb_queue: None,
            epb_verdict: Vec::new(),
        };
        assert(m@ =~~= epb_base(body@, e));
        let ghost base = m@;
        let opts = parse_options(&body[20 + cap + pad..n], e);
        let ghost all = opts_view(opts@);
        proof {
            assert(body@.subrange(20 + cap + pad, n as int) =~= body@.skip(
                20 + cap as int + pad4(cap as int),
            ));
            assert(all.skip(0) =~= all);
        }
        let mut i: usize = 0;
        while i < opts.len()
            invariant
                i <= opts@.len(),
                all == opts_view(opts@),
                epb_fold(m@, all.skip(i as int), e) == epb_fold(base, all, e),
            decreases opts@.len() - i,
        {
            let code = opts[i].0;
            let v = &opts[i].1;
            proof {
                assert(all.skip(i as int)[0] == (code, v@));
                assert(all.skip(i as int).skip(1) =~= all.skip(i as int + 1));
            }
            let ghost before = m@;
            if code == 2 {
                match bytes_to_u32(v.as_slice(), e) {
                    Some(x) => m.epb_flags = x,
                    None => (),
                }
            } else if code == 3 {
                let copy = copy_range(v.as_slice(), 0, v.len());
                assert(copy@ =~= v@);
                m.epb_hash.push(copy);
            } else if code == 4 {
                m.epb_dropcount = bytes_to_u64(v.as_slice(), e);
            } else if code == 5 {
                m.epb_packetid = bytes_to_u64(v.as_slice(), e);
            } else if code == 6 {
                m.epb_queue = bytes_to_u32(v.as_slice(), e);
            } else if code == 7 {
                let copy = copy_range(v.as_slice(), 0, v.len());
                assert(copy@ =~= v@);
                m.epb_verdict.push(copy);
            }
            assert(m@ =~~= epb_apply(before, code, v@, e));
            i = i + 1;
        }
        proof {
            assert(all.skip(opts@.len() as int) =~= Seq::empty());
        }
        Ok(m)
    }
}

} // verus!
