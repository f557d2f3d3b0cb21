//! The TLV option list shared by most block types.
//!
//! An option list is a run of records, each a 16-bit type code, a 16-bit
//! length, and a value padded to a 32-bit boundary.  A record of type 0 ends
//! the list; a record whose value would run past the end of the buffer ends
//! it too (the truncation is tolerated).  `spec_options` is the mathematical
//! reading of a buffer as that record sequence, and `parse_options` is proved
//! to return exactly it.

use vstd::prelude::*;
use crate::util::Endianness;
use crate::util::copy_range;
use crate::util::pad4;
use crate::util::pad_len;
use crate::util::read_u16;
use crate::util::read_u32;
use crate::util::read_u64;
use crate::util::read_ts;
use crate::util::spec_u16;
use crate::util::spec_u32;
use crate::util::spec_u64;
use crate::util::spec_ts;

verus! {

/// The record sequence held by an option buffer: every record up to (and
/// excluding) the type-0 terminator, or up to the first record whose value
/// is truncated.  Comments and custom-data records are included here; each
/// block's decoder ignores the codes it does not recognise.
pub open spec fn spec_options(s: Seq<u8>, e: Endianness) -> Seq<(u16, Seq<u8>)>
    decreases s.len(),
{
    if s.len() <= 3 {
        Seq::empty()
    } else {
        let code = spec_u16(s, 0, e);
        let len = spec_u16(s, 2, e) as int;
        if s.len() < 4 + len + pad4(len) {
            Seq::empty()
        } else if code == 0 {
            Seq::empty()
        } else {
            seq![(code, s.subrange(4, 4 + len))] + spec_options(s.skip(4 + len + pad4(len)), e)
        }
    }
}

/// The records of `v` with each value abstracted to its byte sequence.
pub open spec fn opts_view(v: Seq<(u16, Vec<u8>)>) -> Seq<(u16, Seq<u8>)> {
    v.map(|i: int, p: (u16, Vec<u8>)| (p.0, p.1@))
}

/// Codes that reference the custom-data section of the capture; they are
/// skipped by every block decoder.
pub open spec fn spec_is_custom_code(c: u16) -> bool {
    c == 2988 || c == 2989 || c == 19372 || c == 19373
}

pub fn is_custom_code(c: u16) -> (r: bool)
    ensures
        r == spec_is_custom_code(c),
{
    c == 2988 || c == 2989 || c == 19372 || c == 19373
}

/// Split an option buffer into its records.
pub fn parse_options(buf: &[u8], e: Endianness) -> (r: Vec<(u16, Vec<u8>)>)
    ensures
        opts_view(r@) == spec_options(buf@, e),
{
    let n: usize = buf.len();
    let mut acc: Vec<(u16, Vec<u8>)> = Vec::new();
    let mut pos: usize = 0;
    proof {
        assert(buf@.skip(0) =~= buf@);
        assert(opts_view(acc@) + spec_options(buf@, e) =~= spec_options(buf@, e));
    }
    loop
        invariant
            pos <= n,
            n == buf@.len(),
            opts_view(acc@) + spec_options(buf@.skip(pos as int), e) == spec_options(buf@, e),
        ensures
            opts_view(acc@) == spec_options(buf@, e),
        decreases n - pos,
    {
        let ghost rest = buf@.skip(pos as int);
        assert(rest.len() == n - pos);
        if n - pos <= 3 {
            assert(opts_view(acc@) =~= spec_options(buf@, e));
            break;
        }
        assert(rest[0] == buf@[pos as int]);
        assert(rest[1] == buf@[pos + 1]);
        assert(rest[2] == buf@[pos + 2]);
        assert(rest[3] == buf@[pos + 3]);
        let code = read_u16(buf, pos, e);
        let len = read_u16(buf, pos + 2, e) as usize;
        let pad = pad_len(len);
        assert(code == spec_u16(rest, 0, e));
        assert(len == spec_u16(rest, 2, e));
        if n - pos - 4 < len || (n - pos - 4 - len) < pad {
            // a truncated record ends the list
            assert(rest.len() < 4 + len + pad4(len as int));
            assert(opts_view(acc@) =~= spec_options(buf@, e));
            break;
        }
        if code == 0 {
            assert(opts_view(acc@) =~= spec_options(buf@, e));
            break;
        }
        let value = copy_range(buf, pos + 4, pos + 4 + len);
        assert(value@ =~= rest.subrange(4, 4 + len as int));
        acc.push((code, value));
        let ghost adv = 4 + len as int + pad4(len as int);
        pos = pos + 4 + len + pad;
        proof {
            assert(buf@.skip(pos as int) =~= rest.skip(adv));
            assert(opts_view(acc@) =~= opts_view(acc@.subrange(0, acc@.len() - 1)) + seq![
                (code, value@),
            ]);
            assert(spec_options(rest, e) == seq![(code, rest.subrange(4, 4 + len as int))]
                + spec_options(rest.skip(adv), e));
        }
    }
    acc
}

/// An option value of exactly four bytes read as a `u32`; anything else is
/// rejected.
pub open spec fn spec_bytes_to_u32(s: Seq<u8>, e: Endianness) -> Option<u32> {
    if s.len() == 4 {
        Some(spec_u32(s, 0, e))
    } else {
        None
    }
}

pub fn bytes_to_u32(v: &[u8], e: Endianness) -> (r: Option<u32>)
    ensures
        r == spec_bytes_to_u32(v@, e),
{
    if v.len() == 4 {
        Some(read_u32(v, 0, e))
    } else {
        None
    }
}

/// An option value of exactly eight bytes read as a `u64`; anything else is
/// rejected.
pub open spec fn spec_bytes_to_u64(s: Seq<u8>, e: Endianness) -> Option<u64> {
    if s.len() == 8 {
        Some(spec_u64(s, 0, e))
    } else {
        None
    }
}

pub fn bytes_to_u64(v: &[u8], e: Endianness) -> (r: Option<u64>)
    ensures
        r == spec_bytes_to_u64(v@, e),
{
    if v.len() == 8 {
        Some(read_u64(v, 0, e))
    } else {
        None
    }
}

/// An option value of exactly eight bytes read as a timestamp (high 32-bit
/// word first); anything else is rejected.
pub open spec fn spec_bytes_to_ts(s: Seq<u8>, e: Endianness) -> Option<u64> {
    if s.len() == 8 {
        Some(spec_ts(s, 0, e))
    } else {
        None
    }
}

pub fn bytes_to_ts(v: &[u8], e: Endianness) -> (r: Option<u64>)
    ensures
        r == spec_bytes_to_ts(v@, e),
{
    if v.len() == 8 {
        Some(read_ts(v, 0, e))
    } else {
        None
    }
}

} // verus!
