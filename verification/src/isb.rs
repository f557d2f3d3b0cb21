//! The interface statistics block: capture counters for one interface of the
//! current section.

use vstd::prelude::*;
use crate::error::BlockError;
use crate::opts::bytes_to_ts;
use crate::opts::bytes_to_u64;
use crate::opts::opts_view;
use crate::opts::parse_options;
use crate::opts::spec_bytes_to_ts;
use crate::opts::spec_bytes_to_u64;
use crate::opts::spec_options;
use crate::util::Endianness;
use crate::util::Timestamp;
use crate::util::read_ts;
use crate::util::read_u32;
use crate::util::spec_ts;
use crate::util::spec_u32;

verus! {

/// A decoded interface statistics block.
#[derive(Clone, Copy, PartialEq, Eq, Debug, Structural)]
pub struct InterfaceStatistics {
    /// Which interface of the current section the statistics refer to.
    pub interface_id: u32,
    /// The time the statistics refer to.
    pub timestamp: Timestamp,
    /// When the capture started.
    pub isb_starttime: Option<Timestamp>,
    /// When the capture ended.
    pub isb_endtime: Option<Timestamp>,
    /// Packets received from the physical interface.
    pub isb_ifrecv: Option<u64>,
    /// Packets dropped by the interface for want of resources.
    pub isb_ifdrop: Option<u64>,
    /// Packets accepted by the filter.
    pub isb_filter_accept: Option<u64>,
    /// Packets dropped by the operating system.
    pub isb_osdrop: Option<u64>,
    /// Packets delivered to the user.
    pub isb_usrdeliv: Option<u64>,
}

/// Every field of an interface statistics block is a plain value, so the
/// block is its own mathematical shape.
pub open spec fn isb_apply(
    m: InterfaceStatistics,
    code: u16,
    v: Seq<u8>,
    e: Endianness,
) -> InterfaceStatistics {
    if code == 2 {
        InterfaceStatistics {
            isb_starttime: match spec_bytes_to_ts(v, e) {
                Some(t) => Some(Timestamp(t)),
                None => None,
            },
            ..m
        }
    } else if code == 3 {
        InterfaceStatistics {
            isb_endtime: match spec_bytes_to_ts(v, e) {
                Some(t) => Some(Timestamp(t)),
                None => None,
            },
            ..m
        }
    } else if code == 4 {
        InterfaceStatistics { isb_ifrecv: spec_bytes_to_u64(v, e), ..m }
    } else if code == 5 {
        InterfaceStatistics { isb_ifdrop: spec_bytes_to_u64(v, e), ..m }
    } else if code == 6 {
        InterfaceStatistics { isb_filter_accept: spec_bytes_to_u64(v, e), ..m }
    } else if code == 7 {
        InterfaceStatistics { isb_osdrop: spec_bytes_to_u64(v, e), ..m }
    } else if code == 8 {
        InterfaceStatistics { isb_usrdeliv: spec_bytes_to_u64(v, e), ..m }
    } else {
        m
    }
}

/// The option records of `opts`, applied left to right.
pub open spec fn isb_fold(
    m: InterfaceStatistics,
    opts: Seq<(u16, Seq<u8>)>,
    e: Endianness,
) -> InterfaceStatistics
    decreases opts.len(),
{
    if opts.len() == 0 {
        m
    } else {
        isb_fold(isb_apply(m, opts[0].0, opts[0].1, e), opts.skip(1), e)
    }
}

/// The statistics block before any option is applied.
pub open spec fn isb_base(body: Seq<u8>, e: Endianness) -> InterfaceStatistics {
    InterfaceStatistics {
        interface_id: spec_u32(body, 0, e),
        timestamp: Timestamp(spec_ts(body, 4, e)),
        isb_starttime: None,
        isb_endtime: None,
        isb_ifrecv: None,
        isb_ifdrop: None,
        isb_filter_accept: None,
        isb_osdrop: None,
        isb_usrdeliv: None,
    }
}

/// What decoding an interface statistics block body yields.
pub open spec fn spec_parse_isb(body: Seq<u8>, e: Endianness) -> Result<
    InterfaceStatistics,
    BlockError,
> {
    if body.len() < 12 {
        Err(BlockError::TruncatedBlock)
    } else {
        Ok(isb_fold(isb_base(body, e), spec_options(body.skip(12), e), e))
    }
}

impl InterfaceStatistics {
    /// Decode an interface statistics block body.
    pub fn parse(body: &[u8], e: Endianness) -> (r: Result<InterfaceStatistics, BlockError>)
        ensures
            match r {
                Ok(b) => spec_parse_isb(body@, e) == Ok::<InterfaceStatistics, BlockError>(b),
                Err(er) => spec_parse_isb(body@, e) == Err::<InterfaceStatistics, BlockError>(er),
            },
    {
        let n: usize = body.len();
        if n < 12 {
            return Err(BlockError::TruncatedBlock);
        }
        let mut m = InterfaceStatistics {
            interface_id: read_u32(body, 0, e),
            timestamp: Timestamp(read_ts(body, 4, e)),
            isb_starttime: None,
            isb_endtime: None,
            isb_ifrecv: None,
            isb_ifdrop: None,
            isb_filter_accept: None,
            isb_osdrop: None,
            isb_usrdeliv: None,
        };
        assert(m == isb_base(body@, e));
        let ghost base = m;
        let opts = parse_options(&body[12..n], e);
        let ghost all = opts_view(opts@);
        proof {
            assert(body@.subrange(12, n as int) =~= body@.skip(12));
            assert(all.skip(0) =~= all);
        }
        let mut i: usize = 0;
        while i < opts.len()
            invariant
                i <= opts@.len(),
                all == opts_view(opts@),
                isb_fold(m, all.skip(i as int), e) == isb_fold(base, all, e),
            decreases opts@.len() - i,
        {
            let code = opts[i].0;
            let v = &opts[i].1;
            proof {
                assert(all.skip(i as int)[0] == (code, v@));
                assert(all.skip(i as int).skip(1) =~= all.skip(i as int + 1));
            }
            let ghost before = m;
            if code == 2 {
                m.isb_starttime = match bytes_to_ts(v.as_slice(), e) {
                    Some(t) => Some(Timestamp(t)),
                    None => None,
                };
            } else if code == 3 {
                m.isb_endtime = match bytes_to_ts(v.as_slice(), e) {
                    Some(t) => Some(Timestamp(t)),
                    None => None,
                };
            } else if code == 4 {
                m.isb_ifrecv = bytes_to_u64(v.as_slice(), e);
            } else if code == 5 {
                m.isb_ifdrop = bytes_to_u64(v.as_slice(), e);
            } else if code == 6 {
                m.isb_filter_accept = bytes_to_u64(v.as_slice(), e);
            } else if code == 7 {
                m.isb_osdrop = bytes_to_u64(v.as_slice(), e);
            } else if code == 8 {
                m.isb_usrdeliv = bytes_to_u64(v.as_slice(), e);
            }
            assert(m == isb_apply(before, code, v@, e));
            i = i + 1;
        }
        proof {
            assert(all.skip(opts@.len() as int) =~= Seq::empty());
        }
        Ok(m)
    }
}

} // verus!
