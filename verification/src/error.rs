//! Error taxonomy: fatal framing errors, recoverable block errors, and the
//! top-level error type returned by the capture engine.

use vstd::prelude::*;

verus! {

/// A well-framed block whose body is malformed.  The surrounding frame has
/// already been delimited, so iteration continues with the next block.
#[derive(Clone, Copy, PartialEq, Eq, Debug)]
pub enum BlockError {
    /// The body ended before the fields it promised.
    TruncatedBlock,
}

/// The stream's framing is corrupt; no further block can be delimited, so
/// these errors are fatal to the iteration.
#[derive(Clone, Copy, PartialEq, Eq, Debug)]
pub enum FrameError {
    /// A section header's byte-order magic was neither the big- nor the
    /// little-endian pattern.  Carries the four magic bytes as seen.
    DidntUnderstandMagicBytes([u8; 4]),
    /// The leading and trailing total-length fields disagree.
    BlockLengthMismatch(usize, usize),
    /// The total length was below the 12-byte minimum.
    BlockLengthTooSmall(usize),
}

/// Everything `Capture` can report.
#[derive(Clone, Copy, PartialEq, Eq, Debug)]
pub enum Error {
    /// The stream did not begin with a section header block.
    DidntStartWithSHB,
    /// A read was attempted past the end of a buffer.
    NotEnoughBytes { expected: usize, actual: usize },
    /// Fatal framing corruption; every later call yields end-of-stream.
    Frame(FrameError),
    /// One corrupt block; iteration continues.
    Block(BlockError),
}

} // verus!
