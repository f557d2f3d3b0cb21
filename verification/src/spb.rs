//! The simple packet block: a packet with only its original length.
//!
//! The captured length is not stored; it is what remains of the body after
//! the length field, bounded by the original packet length.  A body shorter
//! than the packet length therefore yields a truncated packet, not an error.

use vstd::prelude::*;
use crate::error::BlockError;
use crate::util::Endianness;
use crate::util::copy_range;
use crate::util::read_u32;
use crate::util::spec_u32;

verus! {

/// A decoded simple packet block.
#[derive(Clone, PartialEq, Eq, Debug)]
pub struct SimplePacket {
    /// Length of the packet as transmitted; the stored data may be shorter.
    pub packet_len: u32,
    /// The captured bytes: the body after the length field, at most
    /// `packet_len` bytes of it.
    pub packet_data: Vec<u8>,
}

/// The mathematical shape of a decoded simple packet block.
#[verifier::ext_equal]
pub struct SimplePacketModel {
    pub packet_len: u32,
    pub packet_data: Seq<u8>,
}

impl View for SimplePacket {
    type V = SimplePacketModel;

    open spec fn view(&self) -> SimplePacketModel {
        SimplePacketModel { packet_len: self.packet_len, packet_data: self.packet_data@ }
    }
}

/// What decoding a simple packet block body yields.
pub open spec fn spec_parse_spb(body: Seq<u8>, e: Endianness) -> Result<
    SimplePacketModel,
    BlockError,
> {
    if body.len() < 4 {
        Err(BlockError::TruncatedBlock)
    } else {
        let plen = spec_u32(body, 0, e);
        let cap = if plen as int <= body.len() - 4 {
            plen as int
        } else {
            body.len() - 4
        };
        Ok(SimplePacketModel { packet_len: plen, packet_data: body.subrange(4, 4 + cap) })
    }
}

impl SimplePacket {
    /// Decode a simple packet block body.
    pub fn parse(body: &[u8], e: Endianness) -> (r: Result<SimplePacket, BlockError>)
        ensures
            match r {
                Ok(b) => spec_parse_spb(body@, e) == Ok::<SimplePacketModel, BlockError>(b@),
                Err(er) => spec_parse_spb(body@, e) == Err::<SimplePacketModel, BlockError>(er),
            },
    {
        let n: usize = body.len();
        if n < 4 {
            return Err(BlockError::TruncatedBlock);
        }
        let plen = read_u32(body, 0, e);
        let rem = n - 4;
        let cap: usize = if (plen as usize) < rem {
            plen as usize
        } else {
            rem
        };
        let data = copy_range(body, 4, 4 + cap);
        let r = SimplePacket { packet_len: plen, packet_data: data };
        proof {
            let m = spec_parse_spb(body@, e)->Ok_0;
            assert(r@ =~= m);
        }
        Ok(r)
    }
}

} // verus!
