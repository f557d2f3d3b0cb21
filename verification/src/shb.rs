//! The section header block: version, declared section length, and the
//! hardware / OS / writing-application strings.
//!
//! The four byte-order magic bytes at the head of the body were already
//! consumed by the framer to fix the endianness; the decoder records that
//! endianness and reads the remaining fixed fields after them.

use vstd::prelude::*;
use crate::error::BlockError;
use crate::opts::opts_view;
use crate::opts::parse_options;
use crate::opts::spec_options;
use crate::strings::lossy_string;
use crate::strings::lossy_utf8;
use crate::util::Endianness;
use crate::util::read_u16;
use crate::util::read_u64;
use crate::util::spec_u16;
use crate::util::spec_u64;

verus! {

/// A decoded section header block.
#[derive(Clone, PartialEq, Eq, Debug)]
pub struct SectionHeader {
    /// The byte order this section declares for itself.
    pub endianness: Endianness,
    pub major_version: u16,
    pub minor_version: u16,
    /// Length in octets of the section that follows, when the writer knew
    /// it.  The on-disk value is signed: -1, and any other negative value,
    /// mean unknown.
    pub section_length: Option<u64>,
    pub shb_hardware: String,
    pub shb_os: String,
    pub shb_userappl: String,
}

/// The mathematical shape of a decoded section header block.
#[verifier::ext_equal]
pub struct SectionHeaderModel {
    pub endianness: Endianness,
    pub major_version: u16,
    pub minor_version: u16,
    pub section_length: Option<u64>,
    pub shb_hardware: Seq<char>,
    pub shb_os: Seq<char>,
    pub shb_userappl: Seq<char>,
}

impl View for SectionHeader {
    type V = SectionHeaderModel;

    open spec fn view(&self) -> SectionHeaderModel {
        SectionHeaderModel {
            endianness: self.endianness,
            major_version: self.major_version,
            minor_version: self.minor_version,
            section_length: self.section_length,
            shb_hardware: self.shb_hardware@,
            shb_os: self.shb_os@,
            shb_userappl: self.shb_userappl@,
        }
    }
}

/// One option record applied to a partially decoded section header.
/// Unrecognised codes (comments and custom data among them) change nothing.
pub open spec fn shb_apply(m: SectionHeaderModel, code: u16, v: Seq<u8>) -> SectionHeaderModel {
    if code == 2 {
        SectionHeaderModel { shb_hardware: lossy_utf8(v), ..m }
    } else if code == 3 {
        SectionHeaderModel { shb_os: lossy_utf8(v), ..m }
    } else if code == 4 {
        SectionHeaderModel { shb_userappl: lossy_utf8(v), ..m }
    } else {
        m
    }
}

/// The option records of `opts`, applied left to right.
pub open spec fn shb_fold(m: SectionHeaderModel, opts: Seq<(u16, Seq<u8>)>) -> SectionHeaderModel
    decreases opts.len(),
{
    if opts.len() == 0 {
        m
    } else {
        shb_fold(shb_apply(m, opts[0].0, opts[0].1), opts.skip(1))
    }
}

/// The section header before any option is applied.
pub open spec fn shb_base(body: Seq<u8>, e: Endianness) -> SectionHeaderModel {
    let raw = spec_u64(body, 8, e);
    SectionHeaderModel {
        endianness: e,
        major_version: spec_u16(body, 4, e),
        minor_version: spec_u16(body, 6, e),
        section_length: if raw >= 0x8000_0000_0000_0000 {
            None
        } else {
            Some(raw)
        },
        shb_hardware: Seq::empty(),
        shb_os: Seq::empty(),
        shb_userappl: Seq::empty(),
    }
}

/// What decoding a section header block body yields.
pub open spec fn spec_parse_shb(body: Seq<u8>, e: Endianness) -> Result<
    SectionHeaderModel,
    BlockError,
> {
    if body.len() < 16 {
        Err(BlockError::TruncatedBlock)
    } else {
        Ok(shb_fold(shb_base(body, e), spec_options(body.skip(16), e)))
    }
}

impl SectionHeader {
    /// Decode a section header block body in the byte order its own magic
    /// declared.
    pub fn parse(body: &[u8], e: Endianness) -> (r: Result<SectionHeader, BlockError>)
        ensures
            match r {
                Ok(b) => spec_parse_shb(body@, e) == Ok::<SectionHeaderModel, BlockError>(b@),
                Err(er) => spec_parse_shb(body@, e) == Err::<SectionHeaderModel, BlockError>(er),
            },
    {
        let n: usize = body.len();
        if n < 16 {
            return Err(BlockError::TruncatedBlock);
        }
        let major_version = read_u16(body, 4, e);
        let minor_version = read_u16(body, 6, e);
        let raw = read_u64(body, 8, e);
        let section_length = if raw >= 0x8000_0000_0000_0000 {
            None
        } else {
            Some(raw)
        };
        let mut m = SectionHeader {
            endianness: e,
            major_version,
            minor_version,
            section_length,
            shb_hardware: String::new(),
            shb_os: String::new(),
            shb_userappl: String::new(),
        };
        assert(m@ =~= shb_base(body@, e));
        let ghost base = m@;
        let opts = parse_options(&body[16..n], e);
        let ghost all = opts_view(opts@);
        proof {
            assert(body@.subrange(16, n as int) =~= body@.skip(16));
            assert(all.skip(0) =~= all);
        }
        let mut i: usize = 0;
        while i < opts.len()
            invariant
                i <= opts@.len(),
                all == opts_view(opts@),
                shb_fold(m@, all.skip(i as int)) == shb_fold(base, all),
            decreases opts@.len() - i,
        {
            let code = opts[i].0;
            let v = &opts[i].1;
            proof {
                assert(all.skip(i as int)[0] == (code, v@));
                assert(all.skip(i as int).skip(1) =~= all.skip(i as int + 1));
            }
            let ghost before = m@;
            if code == 2 {
                m.shb_hardware = lossy_string(v.as_slice());
            } else if code == 3 {
                m.shb_os = lossy_string(v.as_slice());
            } else if code == 4 {
                m.shb_userappl = lossy_string(v.as_slice());
            }
            assert(m@ =~= shb_apply(before, code, v@));
            i = i + 1;
        }
        proof {
            assert(all.skip(opts@.len() as int) =~= Seq::empty());
        }
        Ok(m)
    }
}

} // verus!
