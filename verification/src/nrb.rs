//! The name resolution block.  Its records are retained verbatim; decoding
//! the address-to-name pairs inside them is deliberately left out of the
//! core.

use vstd::prelude::*;
use crate::error::BlockError;
use crate::util::Endianness;
use crate::util::copy_range;

verus! {

/// A decoded name resolution block: the record bytes, kept as they stand.
#[derive(Clone, PartialEq, Eq, Debug)]
pub struct NameResolution {
    /// The name resolution records in their on-disk TLV form.
    pub record_values: Vec<u8>,
}

/// The mathematical shape of a decoded name resolution block.
#[verifier::ext_equal]
pub struct NameResolutionModel {
    pub record_values: Seq<u8>,
}

impl View for NameResolution {
    type V = NameResolutionModel;

    open spec fn view(&self) -> NameResolutionModel {
        NameResolutionModel { record_values: self.record_values@ }
    }
}

/// What decoding a name resolution block body yields: the body itself.
pub open spec fn spec_parse_nrb(body: Seq<u8>) -> NameResolutionModel {
    NameResolutionModel { record_values: body }
}

impl NameResolution {
    /// Decode a name resolution block body.  This never fails.
    pub fn parse(body: &[u8], _e: Endianness) -> (r: Result<NameResolution, BlockError>)
        ensures
            r is Ok,
            r->Ok_0@ == spec_parse_nrb(body@),
    {
        let n: usize = body.len();
        let v = copy_range(body, 0, n);
        proof {
            assert(v@ =~= body@);
        }
        Ok(NameResolution { record_values: v })
    }
}

} // verus!
