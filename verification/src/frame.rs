//! The framer: find the next complete block at the head of a buffer.
//!
//! A frame is a 4-byte type code, a 4-byte total length (at least 12, both
//! length fields and the body included), the body, and the total length
//! repeated.  A section header announces itself by its endian-palindromic
//! type code, and its byte-order magic fixes the endianness before the
//! length field is read.

use vstd::prelude::*;
use crate::block::BlockType;
use crate::error::FrameError;
use crate::util::Endianness;
use crate::util::read_u32;
use crate::util::spec_u32;

verus! {

/// The tail of framing once the endianness `e` is settled: length checks and
/// the kind of the block.  `tcode` is the type code already read.
pub open spec fn spec_frame_tail(buf: Seq<u8>, e: Endianness, tcode: u32) -> (
    Endianness,
    Result<Option<(BlockType, int)>, FrameError>,
) {
    let blen = spec_u32(buf, 4, e) as int;
    if blen < 12 {
        (e, Err(FrameError::BlockLengthTooSmall(blen as usize)))
    } else if buf.len() < blen {
        (e, Ok(None))
    } else {
        let blen2 = spec_u32(buf, blen - 4, e) as int;
        if blen != blen2 {
            (e, Err(FrameError::BlockLengthMismatch(blen as usize, blen2 as usize)))
        } else {
            (e, Ok(Some((BlockType::spec_from_u32(tcode), blen - 12))))
        }
    }
}

/// What framing the head of `buf` yields, starting from endianness `e0`:
/// the (possibly updated) endianness, and either the block kind with its
/// body length, `None` when the buffer holds no complete block yet, or a
/// fatal framing error.
pub open spec fn spec_frame(buf: Seq<u8>, e0: Endianness) -> (
    Endianness,
    Result<Option<(BlockType, int)>, FrameError>,
) {
    if buf.len() < 12 {
        (e0, Ok(None))
    } else {
        let tcode = spec_u32(buf, 0, e0);
        if tcode == 0x0A0D_0D0A {
            match Endianness::spec_from_magic(buf.subrange(8, 12)) {
                Some(e1) => spec_frame_tail(buf, e1, tcode),
                None => (
                    e0,
                    Err(
                        FrameError::DidntUnderstandMagicBytes(
                            [buf[8], buf[9], buf[10], buf[11]],
                        ),
                    ),
                ),
            }
        } else {
            spec_frame_tail(buf, e0, tcode)
        }
    }
}

/// Look for a complete frame at the front of `buf`.
///
/// Returns the block kind and body length when a complete frame is there,
/// `Ok(None)` when the buffer is empty or the frame incomplete, and an error
/// when the framing is corrupt — such errors are fatal, because the stream
/// can no longer be resynchronised.  When the frame is a section header, the
/// endianness is updated from its byte-order magic before the length field
/// is read.
pub fn parse_frame(buf: &[u8], endianness: &mut Endianness) -> (r: Result<
    Option<(BlockType, usize)>,
    FrameError,
>)
    ensures
        ({
            let (e2, res) = spec_frame(buf@, *old(endianness));
            &&& *final(endianness) == e2
            &&& match (r, res) {
                (Ok(None), Ok(None)) => true,
                (Ok(Some((bt, dlen))), Ok(Some((sbt, sdlen)))) => bt == sbt && dlen == sdlen
                    && dlen + 12 <= buf@.len(),
                (Err(fe), Err(sfe)) => fe == sfe,
                _ => false,
            }
        }),
{
    let n: usize = buf.len();
    if n < 12 {
        return Ok(None);
    }
    let tcode = read_u32(buf, 0, *endianness);
    if tcode == 0x0A0D_0D0A {
        // a new section: its magic fixes the endianness
        assert(buf@.subrange(8, 12) =~= seq![buf@[8], buf@[9], buf@[10], buf@[11]]);
        if buf[8] == 0x1A && buf[9] == 0x2B && buf[10] == 0x3C && buf[11] == 0x4D {
            *endianness = Endianness::Big;
        } else if buf[8] == 0x4D && buf[9] == 0x3C && buf[10] == 0x2B && buf[11] == 0x1A {
            *endianness = Endianness::Little;
        } else {
            return Err(FrameError::DidntUnderstandMagicBytes([buf[8], buf[9], buf[10], buf[11]]));
        }
    }
    let blen = read_u32(buf, 4, *endianness) as usize;
    if blen < 12 {
        return Err(FrameError::BlockLengthTooSmall(blen));
    }
    if n < blen {
        return Ok(None);
    }
    let blen2 = read_u32(buf, blen - 4, *endianness) as usize;
    if blen != blen2 {
        return Err(FrameError::BlockLengthMismatch(blen, blen2));
    }
    Ok(Some((BlockType::from_u32(tcode), blen - 12)))
}

} // verus!
