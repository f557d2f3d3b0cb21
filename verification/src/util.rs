//! Endianness and bounds-checked primitive reads over byte slices.
//!
//! Every multi-byte integer field of a pcap-ng block is read through these
//! functions; each is proved to return exactly the integer its spec twin
//! defines over the byte sequence.

use vstd::prelude::*;
use crate::error::Error;
use crate::error::FrameError;

verus! {

/// Byte order of the multi-byte integer fields of a section.  It is
/// (re)established by each section header block.
#[derive(Clone, Copy, PartialEq, Eq, Debug, Structural)]
pub enum Endianness {
    Big,
    Little,
}

/// A count of time units since 1970-01-01 UTC.  The length of a unit is
/// fixed per interface by its timestamp-resolution option.
#[derive(Clone, Copy, PartialEq, Eq, Debug, Structural)]
pub struct Timestamp(pub u64);

/// The integer held by the two bytes at `i` of `s`, in byte order `e`.
pub open spec fn spec_u16(s: Seq<u8>, i: int, e: Endianness) -> u16 {
    match e {
        Endianness::Big => (s[i] * 0x100 + s[i + 1]) as u16,
        Endianness::Little => (s[i + 1] * 0x100 + s[i]) as u16,
    }
}

/// The integer held by the four bytes at `i` of `s`, in byte order `e`.
pub open spec fn spec_u32(s: Seq<u8>, i: int, e: Endianness) -> u32 {
    match e {
        Endianness::Big => (s[i] * 0x100_0000 + s[i + 1] * 0x1_0000 + s[i + 2] * 0x100 + s[i
            + 3]) as u32,
        Endianness::Little => (s[i + 3] * 0x100_0000 + s[i + 2] * 0x1_0000 + s[i + 1] * 0x100 + s[
            i
        ]) as u32,
    }
}

/// The integer held by the eight bytes at `i` of `s`, in byte order `e`.
pub open spec fn spec_u64(s: Seq<u8>, i: int, e: Endianness) -> u64 {
    match e {
        Endianness::Big => (spec_u32(s, i, e) * 0x1_0000_0000 + spec_u32(s, i + 4, e)) as u64,
        Endianness::Little => (spec_u32(s, i + 4, e) * 0x1_0000_0000 + spec_u32(s, i, e)) as u64,
    }
}

/// A 64-bit pcap-ng timestamp at `i` of `s`: the high 32-bit word comes
/// first, then the low word, each in byte order `e`.
pub open spec fn spec_ts(s: Seq<u8>, i: int, e: Endianness) -> u64 {
    (spec_u32(s, i, e) * 0x1_0000_0000 + spec_u32(s, i + 4, e)) as u64
}

pub fn read_u16(buf: &[u8], i: usize, e: Endianness) -> (r: u16)
    requires
        i + 2 <= buf@.len(),
    ensures
        r == spec_u16(buf@, i as int, e),
{
    let n: usize = buf.len();
    match e {
        Endianness::Big => (buf[i] as u16) * 0x100 + (buf[i + 1] as u16),
        Endianness::Little => (buf[i + 1] as u16) * 0x100 + (buf[i] as u16),
    }
}

pub fn read_u32(buf: &[u8], i: usize, e: Endianness) -> (r: u32)
    requires
        i + 4 <= buf@.len(),
    ensures
        r == spec_u32(buf@, i as int, e),
{
    let n: usize = buf.len();
    match e {
        Endianness::Big => (buf[i] as u32) * 0x100_0000 + (buf[i + 1] as u32) * 0x1_0000 + (buf[i
            + 2] as u32) * 0x100 + (buf[i + 3] as u32),
        Endianness::Little => (buf[i + 3] as u32) * 0x100_0000 + (buf[i + 2] as u32) * 0x1_0000 + (
        buf[i + 1] as u32) * 0x100 + (buf[i] as u32),
    }
}

pub fn read_u64(buf: &[u8], i: usize, e: Endianness) -> (r: u64)
    requires
        i + 8 <= buf@.len(),
    ensures
        r == spec_u64(buf@, i as int, e),
{
    let n: usize = buf.len();
    match e {
        Endianness::Big => {
            let hi = read_u32(buf, i, e);
            let lo = read_u32(buf, i + 4, e);
            (hi as u64) * 0x1_0000_0000 + (lo as u64)
        },
        Endianness::Little => {
            let lo = read_u32(buf, i, e);
            let hi = read_u32(buf, i + 4, e);
            (hi as u64) * 0x1_0000_0000 + (lo as u64)
        },
    }
}

/// Read a 64-bit timestamp: high word first, then low word, whatever the
/// byte order.
pub fn read_ts(buf: &[u8], i: usize, e: Endianness) -> (r: u64)
    requires
        i + 8 <= buf@.len(),
    ensures
        r == spec_ts(buf@, i as int, e),
{
    let n: usize = buf.len();
    let hi = read_u32(buf, i, e);
    let lo = read_u32(buf, i + 4, e);
    (hi as u64) * 0x1_0000_0000 + (lo as u64)
}

/// Check that `buf` holds at least `len` bytes.
pub fn require_bytes(buf: &[u8], len: usize) -> (r: Result<(), Error>)
    ensures
        r is Ok <==> buf@.len() >= len,
        r is Err ==> r == Err::<(), Error>(
            Error::NotEnoughBytes { expected: len, actual: buf@.len() as usize },
        ),
{
    if buf.len() < len {
        Err(Error::NotEnoughBytes { expected: len, actual: buf.len() })
    } else {
        Ok(())
    }
}

/// Bytes of padding that follow a field of `n` bytes to reach the next
/// 32-bit boundary.
pub open spec fn pad4(n: int) -> int {
    if n % 4 == 0 {
        0
    } else {
        4 - n % 4
    }
}

pub fn pad_len(n: usize) -> (r: usize)
    ensures
        r == pad4(n as int),
        r <= 3,
{
    if n % 4 == 0 {
        0
    } else {
        4 - n % 4
    }
}

/// Copy the bytes `start..end` of `buf` into a fresh vector.
pub fn copy_range(buf: &[u8], start: usize, end: usize) -> (r: Vec<u8>)
    requires
        start <= end,
        end <= buf@.len(),
    ensures
        r@ == buf@.subrange(start as int, end as int),
{
    let mut v: Vec<u8> = Vec::new();
    let mut i: usize = start;
    while i < end
        invariant
            start <= i <= end,
            end <= buf@.len(),
            v@ == buf@.subrange(start as int, i as int),
        decreases end - i,
    {
        v.push(buf[i]);
        assert(buf@.subrange(start as int, (i + 1) as int) =~= buf@.subrange(
            start as int,
            i as int,
        ).push(buf@[i as int]));
        i = i + 1;
    }
    v
}

impl Endianness {
    /// What the four byte-order magic bytes say, if anything.
    pub open spec fn spec_from_magic(s: Seq<u8>) -> Option<Endianness> {
        if s[0] == 0x1A && s[1] == 0x2B && s[2] == 0x3C && s[3] == 0x4D {
            Some(Endianness::Big)
        } else if s[0] == 0x4D && s[1] == 0x3C && s[2] == 0x2B && s[3] == 0x1A {
            Some(Endianness::Little)
        } else {
            None
        }
    }

    /// Decode the byte-order magic found in a section header block.
    pub fn parse_from_magic(buf: &[u8]) -> (r: Result<Endianness, FrameError>)
        requires
            buf@.len() >= 4,
        ensures
            match r {
                Ok(e) => Self::spec_from_magic(buf@) == Some(e),
                Err(fe) => Self::spec_from_magic(buf@) is None && fe
                    == FrameError::DidntUnderstandMagicBytes(
                    [buf@[0], buf@[1], buf@[2], buf@[3]],
                ),
            },
    {
        if buf[0] == 0x1A && buf[1] == 0x2B && buf[2] == 0x3C && buf[3] == 0x4D {
            Ok(Endianness::Big)
        } else if buf[0] == 0x4D && buf[1] == 0x3C && buf[2] == 0x2B && buf[3] == 0x1A {
            Ok(Endianness::Little)
        } else {
            Err(FrameError::DidntUnderstandMagicBytes([buf[0], buf[1], buf[2], buf[3]]))
        }
    }
}

} // verus!
