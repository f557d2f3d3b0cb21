//! The block reader: pull complete frames out of the input and hand each to
//! the block decoder, yielding a sequence of typed blocks.
//!
//! The reader is forward-only.  A framing error marks it dead: the stream is
//! desynchronised and every later call yields end-of-stream.  A body-decode
//! error is confined to its block; the reader stays alive and the block is
//! delivered with the error in place of its value.

use vstd::prelude::*;
use crate::block::Block;
use crate::block::BlockModel;
use crate::block::BlockType;
use crate::block::block_units_ok;
use crate::block::spec_parse_block;
use crate::error::BlockError;
use crate::error::Error;
use crate::frame::parse_frame;
use crate::frame::spec_frame;
use crate::util::Endianness;

verus! {

/// One framed block: where it stood in the input, how long it was, its kind,
/// and its decoded value — or the error its body produced.
#[derive(PartialEq, Eq, Debug)]
pub struct FramedBlock {
    /// Byte offset of the block within the input.
    pub start: usize,
    /// Total length of the block, both length fields included.
    pub total_len: usize,
    /// The kind the type code denotes.
    pub block_type: BlockType,
    /// The decoded block, or the body error it produced.
    pub block: Result<Block, BlockError>,
}

/// The mathematical shape of a framed block.
#[verifier::ext_equal]
pub struct FramedBlockModel {
    pub start: int,
    pub total_len: int,
    pub block_type: BlockType,
    pub block: Result<BlockModel, BlockError>,
}

impl View for FramedBlock {
    type V = FramedBlockModel;

    open spec fn view(&self) -> FramedBlockModel {
        FramedBlockModel {
            start: self.start as int,
            total_len: self.total_len as int,
            block_type: self.block_type,
            block: match &self.block {
                Ok(b) => Ok(b@),
                Err(e) => Err(*e),
            },
        }
    }
}

/// The state of a block reader.
#[verifier::ext_equal]
pub struct RdrModel {
    pub data: Seq<u8>,
    pub pos: int,
    pub endianness: Endianness,
    pub started: bool,
    pub dead: bool,
}

/// An iterator over the blocks of a byte buffer.
pub struct BlockReader {
    data: Vec<u8>,
    pos: usize,
    endianness: Endianness,
    started: bool,
    dead: bool,
}

impl View for BlockReader {
    type V = RdrModel;

    closed spec fn view(&self) -> RdrModel {
        RdrModel {
            data: self.data@,
            pos: self.pos as int,
            endianness: self.endianness,
            started: self.started,
            dead: self.dead,
        }
    }
}

/// The reader state as it stands before any block was read: at the start of
/// the input, with a placeholder byte order that the first section header
/// will replace.
pub open spec fn rdr_initial(data: Seq<u8>) -> RdrModel {
    RdrModel { data, pos: 0, endianness: Endianness::Little, started: false, dead: false }
}

/// Framing and decoding of one block, after the start-of-stream check.
pub open spec fn spec_try_next_framed(st: RdrModel) -> (RdrModel, Option<
    Result<FramedBlockModel, Error>,
>) {
    let (e2, res) = spec_frame(st.data.skip(st.pos), st.endianness);
    match res {
        Ok(None) => (RdrModel { endianness: e2, dead: true, ..st }, None),
        Err(fe) => (RdrModel { endianness: e2, dead: true, ..st }, Some(Err(Error::Frame(fe)))),
        Ok(Some((bt, dlen))) => {
            let body = st.data.subrange(st.pos + 8, st.pos + 8 + dlen);
            let st2 = RdrModel { endianness: e2, pos: st.pos + dlen + 12, ..st };
            (
                st2,
                Some(
                    Ok(
                        FramedBlockModel {
                            start: st.pos,
                            total_len: dlen + 12,
                            block_type: bt,
                            block: spec_parse_block(bt, body, e2),
                        },
                    ),
                ),
            )
        },
    }
}

/// What one call to `try_next` yields: the new reader state and the item.
/// A dead reader yields nothing.  A fresh reader first checks that the input
/// begins with a section header's type code; an input that begins otherwise
/// is dead on arrival with `DidntStartWithSHB`.  An empty input is plain
/// end-of-stream.
pub open spec fn spec_try_next(st: RdrModel) -> (RdrModel, Option<
    Result<FramedBlockModel, Error>,
>) {
    if st.dead {
        (st, None)
    } else if !st.started {
        if st.data.len() == 0 {
            (RdrModel { dead: true, ..st }, None)
        } else if st.data.len() < 4 || !(st.data[0] == 0x0A && st.data[1] == 0x0D && st.data[2]
            == 0x0D && st.data[3] == 0x0A) {
            (RdrModel { dead: true, ..st }, Some(Err(Error::DidntStartWithSHB)))
        } else {
            spec_try_next_framed(RdrModel { started: true, ..st })
        }
    } else {
        spec_try_next_framed(st)
    }
}

/// How a decoded packet block's bytes relate to the input it was framed out
/// of: the payload is exactly the input bytes at its documented offset within
/// the block, and lies inside the input.
pub open spec fn block_data_bounds(bm: BlockModel, start: int, total: int, data: Seq<u8>) -> bool {
    match bm {
        BlockModel::EnhancedPacket(p) => {
            &&& start + 28 + p.packet_data.len() <= data.len()
            &&& p.packet_data == data.subrange(start + 28, start + 28 + p.packet_data.len())
        },
        BlockModel::ObsoletePacket(p) => {
            &&& start + 28 + p.packet_data.len() <= data.len()
            &&& p.packet_data == data.subrange(start + 28, start + 28 + p.packet_data.len())
        },
        BlockModel::SimplePacket(p) => {
            &&& start + 12 + p.packet_data.len() <= data.len()
            &&& p.packet_data == data.subrange(start + 12, start + 12 + p.packet_data.len())
        },
        _ => true,
    }
}

/// Whatever kind a well-framed block decodes to, its payload bytes stand at
/// the kind's documented offset within the block.
proof fn lemma_block_bounds(
    bt: BlockType,
    body: Seq<u8>,
    e: Endianness,
    start: int,
    total: int,
    data: Seq<u8>,
)
    requires
        body == data.subrange(start + 8, start + 8 + body.len()),
        total == body.len() + 12,
        0 <= start,
        start + total <= data.len(),
    ensures
        spec_parse_block(bt, body, e) matches Ok(bm) ==> block_data_bounds(bm, start, total, data),
{
    match spec_parse_block(bt, body, e) {
        Ok(bm) => match bm {
            BlockModel::EnhancedPacket(p) => {
                let cap = crate::util::spec_u32(body, 12, e) as int;
                crate::epb::lemma_epb_fold_data(
                    crate::epb::epb_base(body, e),
                    crate::opts::spec_options(
                        body.skip(20 + cap + crate::util::pad4(cap)),
                        e,
                    ),
                    e,
                );
                assert(p.packet_data =~= data.subrange(start + 28, start + 28 + cap));
            },
            BlockModel::ObsoletePacket(p) => {
                let cap = crate::util::spec_u32(body, 12, e) as int;
                assert(p.packet_data =~= data.subrange(start + 28, start + 28 + cap));
            },
            BlockModel::SimplePacket(p) => {
                let plen = crate::util::spec_u32(body, 0, e) as int;
                let cap = if plen <= body.len() - 4 {
                    plen
                } else {
                    body.len() - 4
                };
                assert(p.packet_data =~= data.subrange(start + 12, start + 12 + cap));
            },
            _ => {},
        },
        Err(_) => {},
    }
}

/// Everything one step of the reader guarantees, stated over the reader
/// state alone so that proofs about the capture engine can walk the block
/// sequence: the input never changes, the cursor only moves forward and
/// stays within the input, an end or a fatal error leaves the reader dead,
/// and a framed block carries the bounds and facts of its kind.
pub proof fn lemma_try_next_facts(st: RdrModel)
    requires
        rdr_wf(st),
    ensures
        rdr_wf(spec_try_next(st).0),
        spec_try_next(st).0.data == st.data,
        spec_try_next(st).0.pos >= st.pos,
        match spec_try_next(st).1 {
            None => spec_try_next(st).0.dead,
            Some(Err(e)) => spec_try_next(st).0.dead && (e matches Error::Frame(_) || e
                == Error::DidntStartWithSHB),
            Some(Ok(fb)) => {
                &&& fb.start == st.pos
                &&& fb.total_len >= 12
                &&& fb.start + fb.total_len <= st.data.len()
                &&& spec_try_next(st).0.pos == fb.start + fb.total_len
                &&& spec_try_next(st).0.dead == st.dead
                &&& (fb.block matches Ok(bm) ==> block_units_ok(bm) && block_data_bounds(
                    bm,
                    fb.start,
                    fb.total_len,
                    st.data,
                ))
            },
        },
{
    match spec_try_next(st).1 {
        Some(Ok(fb)) => {
            let st0 = if !st.started {
                RdrModel { started: true, ..st }
            } else {
                st
            };
            let (e2, res) = crate::frame::spec_frame(st0.data.skip(st0.pos), st0.endianness);
            match res {
                Ok(Some((bt, dlen))) => {
                    let body = st0.data.subrange(st0.pos + 8, st0.pos + 8 + dlen);
                    crate::block::lemma_parse_block_units(bt, body, e2);
                    lemma_block_bounds(
                        bt,
                        body,
                        e2,
                        st0.pos,
                        dlen + 12,
                        st0.data,
                    );
                },
                _ => {},
            }
        },
        _ => {},
    }
}

/// Well-formedness of a reader: the cursor never leaves the input.
pub open spec fn rdr_wf(st: RdrModel) -> bool {
    0 <= st.pos <= st.data.len()
}

impl BlockReader {
    /// A reader over `data`.  No byte is examined yet.
    pub fn new(data: Vec<u8>) -> (r: BlockReader)
        ensures
            r@ == rdr_initial(data@),
            rdr_wf(r@),
    {
        BlockReader { data, pos: 0, endianness: Endianness::Little, started: false, dead: false }
    }

    /// The input this reader walks.
    pub fn data(&self) -> (r: &Vec<u8>)
        ensures
            r@ == self@.data,
    {
        &self.data
    }

    /// Start over at the beginning of the input, as if freshly created.
    pub fn rewind(&mut self)
        ensures
            final(self)@ == rdr_initial(old(self)@.data),
            rdr_wf(final(self)@),
    {
        self.pos = 0;
        self.endianness = Endianness::Little;
        self.started = false;
        self.dead = false;
    }

    /// The next framed block, a fatal error, or `None` at end-of-stream.
    ///
    /// Beyond equality with `spec_try_next`, the ensures restate the bounds
    /// a caller needs to relate the block to the input: the frame begins at
    /// the old cursor, is at least 12 bytes long, lies within the input, and
    /// the cursor moves exactly past it.
    pub fn try_next(&mut self) -> (r: Option<Result<FramedBlock, Error>>)
        requires
            rdr_wf(old(self)@),
        ensures
            rdr_wf(final(self)@),
            final(self)@ == spec_try_next(old(self)@).0,
            final(self)@.data == old(self)@.data,
            match (r, spec_try_next(old(self)@).1) {
                (None, None) => true,
                (Some(Err(e)), Some(Err(se))) => e == se,
                (Some(Ok(fb)), Some(Ok(sfb))) => fb@ == sfb && fb.start == old(self)@.pos
                    && fb.total_len >= 12 && fb.start + fb.total_len <= old(self)@.data.len()
                    && final(self)@.pos == fb.start + fb.total_len && (fb.block matches Ok(bb)
                    ==> block_units_ok(bb@) && block_data_bounds(
                        bb@,
                        fb@.start,
                        fb@.total_len,
                        old(self)@.data,
                    )),
                _ => false,
            },
    {
        if self.dead {
            return None;
        }
        if !self.started {
            let len: usize = self.data.len();
            if len == 0 {
                self.dead = true;
                return None;
            }
            if len < 4 || !(self.data[0] == 0x0A && self.data[1] == 0x0D && self.data[2] == 0x0D
                && self.data[3] == 0x0A) {
                self.dead = true;
                return Some(Err(Error::DidntStartWithSHB));
            }
            self.started = true;
        }
        let n: usize = self.data.len();
        let buf = &self.data.as_slice()[self.pos..n];
        let mut e = self.endianness;
        let fres = parse_frame(buf, &mut e);
        self.endianness = e;
        proof {
            assert(buf@ =~= self@.data.skip(self@.pos));
        }
        match fres {
            Ok(None) => {
                self.dead = true;
                None
            },
            Err(fe) => {
                self.dead = true;
                Some(Err(Error::Frame(fe)))
            },
            Ok(Some((bt, dlen))) => {
                let start = self.pos;
                let total = dlen + 12;
                let body = &self.data.as_slice()[start + 8..start + 8 + dlen];
                proof {
                    assert(body@ =~= self@.data.subrange(
                        self@.pos + 8,
                        self@.pos + 8 + dlen as int,
                    ));
                }
                let block = Block::parse(bt, body, e);
                self.pos = start + total;
                proof {
                    lemma_block_bounds(
                        bt,
                        body@,
                        e,
                        start as int,
                        total as int,
                        self@.data,
                    );
                }
                Some(Ok(FramedBlock { start, total_len: total, block_type: bt, block }))
            },
        }
    }
}

} // verus!
