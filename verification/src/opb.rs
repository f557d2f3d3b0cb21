//! The obsolete packet block, superseded by the enhanced packet block but
//! still decoded: old writers produced it.

use vstd::prelude::*;
use crate::error::BlockError;
use crate::opts::opts_view;
use crate::opts::parse_options;
use crate::opts::spec_is_custom_code;
use crate::opts::is_custom_code;
use crate::opts::spec_options;
use crate::util::Endianness;
use crate::util::Timestamp;
use crate::util::copy_range;
use crate::util::pad4;
use crate::util::pad_len;
use crate::util::read_ts;
use crate::util::read_u16;
use crate::util::read_u32;
use crate::util::spec_ts;
use crate::util::spec_u16;
use crate::util::spec_u32;

verus! {

/// A decoded obsolete packet block.
#[derive(Clone, PartialEq, Eq, Debug)]
pub struct ObsoletePacket {
    /// Index of the interface this packet came from, within the current
    /// section's interface table.
    pub interface_id: u16,
    /// Packets lost between this one and the preceding one; the on-disk
    /// value 0xFFFF means the information was not available.
    pub drops_count: Option<u16>,
    /// Units since the epoch; the unit comes from the interface.
    pub timestamp: Timestamp,
    /// Bytes stored in this block, excluding padding.
    pub captured_len: u32,
    /// Length of the packet as transmitted.
    pub packet_len: u32,
    /// The captured bytes.
    pub packet_data: Vec<u8>,
    /// The option records of the block, kept raw: code and value.
    pub options: Vec<(u16, Vec<u8>)>,
}

/// The mathematical shape of a decoded obsolete packet block.
#[verifier::ext_equal]
pub struct ObsoletePacketModel {
    pub interface_id: u16,
    pub drops_count: Option<u16>,
    pub timestamp: Timestamp,
    pub captured_len: u32,
    pub packet_len: u32,
    pub packet_data: Seq<u8>,
    pub options: Seq<(u16, Seq<u8>)>,
}

impl View for ObsoletePacket {
    type V = ObsoletePacketModel;

    open spec fn view(&self) -> ObsoletePacketModel {
        ObsoletePacketModel {
            interface_id: self.interface_id,
            drops_count: self.drops_count,
            timestamp: self.timestamp,
            captured_len: self.captured_len,
            packet_len: self.packet_len,
            packet_data: self.packet_data@,
            options: opts_view(self.options@),
        }
    }
}

/// The option records a reader of this block sees: everything but comments
/// and custom-data records.
pub open spec fn opb_kept_options(opts: Seq<(u16, Seq<u8>)>) -> Seq<(u16, Seq<u8>)>
    decreases opts.len(),
{
    if opts.len() == 0 {
        Seq::empty()
    } else {
        let rest = opb_kept_options(opts.skip(1));
        if opts[0].0 == 1 || spec_is_custom_code(opts[0].0) {
            rest
        } else {
            seq![opts[0]] + rest
        }
    }
}

/// What decoding an obsolete packet block body yields.
pub open spec fn spec_parse_opb(body: Seq<u8>, e: Endianness) -> Result<
    ObsoletePacketModel,
    BlockError,
> {
    if body.len() < 20 {
        Err(BlockError::TruncatedBlock)
    } else {
        let cap = spec_u32(body, 12, e) as int;
        if body.len() < 20 + cap + pad4(cap) {
            Err(BlockError::TruncatedBlock)
        } else {
            let drops = spec_u16(body, 2, e);
            Ok(
                ObsoletePacketModel {
                    interface_id: spec_u16(body, 0, e),
                    drops_count: if drops == 0xFFFF {
                        None
                    } else {
                        Some(drops)
                    },
                    timestamp: Timestamp(spec_ts(body, 4, e)),
                    captured_len: spec_u32(body, 12, e),
                    packet_len: spec_u32(body, 16, e),
                    packet_data: body.subrange(20, 20 + cap),
                    options: opb_kept_options(spec_options(body.skip(20 + cap + pad4(cap)), e)),
                },
            )
        }
    }
}

impl ObsoletePacket {
    /// Decode an obsolete packet block body.
    pub fn parse(body: &[u8], e: Endianness) -> (r: Result<ObsoletePacket, BlockError>)
        ensures
            match r {
                Ok(b) => spec_parse_opb(body@, e) == Ok::<ObsoletePacketModel, BlockError>(b@),
                Err(er) => spec_parse_opb(body@, e) == Err::<ObsoletePacketModel, BlockError>(er),
            },
    {
        let n: usize = body.len();
        if n < 20 {
            return Err(BlockError::TruncatedBlock);
        }
        let captured_len = read_u32(body, 12, e);
        let cap = captured_len as usize;
        let pad = pad_len(cap);
        if n - 20 < cap || (n - 20 - cap) < pad {
            return Err(BlockError::TruncatedBlock);
        }
        let drops = read_u16(body, 2, e);
        let packet_data = copy_range(body, 20, 20 + cap);
        let opts = parse_options(&body[20 + cap + pad..n], e);
        let ghost all = opts_view(opts@);
        proof {
            assert(body@.subrange(20 + cap + pad, n as int) =~= body@.skip(
                20 + cap as int + pad4(cap as int),
            ));
        }
        let mut kept: Vec<(u16, Vec<u8>)> = Vec::new();
        let mut i: usize = opts.len();
        // walk from the back so the recursion of `opb_kept_options` unfolds
        // in step with the loop
        proof {
            assert(all.skip(opts@.len() as int) =~= Seq::empty());
            assert(opts_view(kept@) =~= opb_kept_options(all.skip(opts@.len() as int)));
        }
        while i > 0
            invariant
                i <= opts@.len(),
                all == opts_view(opts@),
                opts_view(kept@) == opb_kept_options(all.skip(i as int)),
            decreases i,
        {
            i = i - 1;
            let code = opts[i].0;
            let v = &opts[i].1;
            proof {
                assert(all.skip(i as int)[0] == (code, v@));
                assert(all.skip(i as int).skip(1) =~= all.skip(i as int + 1));
            }
            if code != 1 && !is_custom_code(code) {
                let copy = copy_range(v.as_slice(), 0, v.len());
                assert(copy@ =~= v@);
                kept.insert(0, (code, copy));
                assert(opts_view(kept@) =~= seq![(code, v@)] + opb_kept_options(
                    all.skip(i as int + 1),
                ));
            }
        }
        proof {
            assert(all.skip(0) =~= all);
        }
        let r = ObsoletePacket {
            interface_id: read_u16(body, 0, e),
            drops_count: if drops == 0xFFFF {
                None
            } else {
                Some(drops)
            },
            timestamp: Timestamp(read_ts(body, 4, e)),
            captured_len,
            packet_len: read_u32(body, 16, e),
            packet_data,
            options: kept,
        };
        proof {
            let m = spec_parse_opb(body@, e)->Ok_0;
            assert(r@ =~~= m);
        }
        Ok(r)
    }
}

} // verus!
