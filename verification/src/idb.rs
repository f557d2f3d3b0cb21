//! The interface description block: link type, snap length, and the option
//! list that names the interface and fixes its timestamp resolution.

use vstd::prelude::*;
use vstd::arithmetic::power::pow;
use vstd::arithmetic::power::lemma_pow_increases;
use vstd::arithmetic::power::lemma_pow_positive;
use crate::error::BlockError;
use crate::link_type::LinkType;
use crate::opts::bytes_to_u64;
use crate::opts::opts_view;
use crate::opts::parse_options;
use crate::opts::spec_bytes_to_u64;
use crate::opts::spec_options;
use crate::strings::lossy_string;
use crate::strings::lossy_utf8;
use crate::util::Endianness;
use crate::util::copy_range;
use crate::util::read_u16;
use crate::util::read_u32;
use crate::util::spec_u16;
use crate::util::spec_u32;

verus! {

/// Timestamp units per second a resolution byte `b` denotes: the low seven
/// bits are an exponent, the top bit selects the base (clear: 10, set: 2).
/// `None` when the unit count does not fit a 32-bit unsigned; such an
/// interface's timestamps are unusable.
pub open spec fn spec_tsresol_units(b: u8) -> Option<u32> {
    let base: int = if b >= 128 {
        2
    } else {
        10
    };
    let exp = (b % 128) as nat;
    if pow(base, exp) <= u32::MAX as int {
        Some(pow(base, exp) as u32)
    } else {
        None
    }
}

/// `base` raised to `exp` when that fits a `u32`.
pub fn checked_pow_u32(base: u32, exp: u32) -> (r: Option<u32>)
    requires
        1 <= base,
    ensures
        r == if pow(base as int, exp as nat) <= u32::MAX as int {
            Some(pow(base as int, exp as nat) as u32)
        } else {
            None::<u32>
        },
{
    let mut acc: u32 = 1;
    let mut i: u32 = 0;
    assert(pow(base as int, 0) == 1) by {
        vstd::arithmetic::power::lemma_pow0(base as int);
    }
    while i < exp
        invariant
            i <= exp,
            1 <= base,
            acc == pow(base as int, i as nat),
        decreases exp - i,
    {
        assert(pow(base as int, (i + 1) as nat) == base * pow(base as int, i as nat)) by {
            reveal(pow);
        }
        match acc.checked_mul(base) {
            Some(x) => {
                assert(x == base * pow(base as int, i as nat));
                acc = x;
            },
            None => {
                proof {
                    lemma_pow_increases(base as nat, (i + 1) as nat, exp as nat);
                }
                return None;
            },
        }
        i = i + 1;
    }
    Some(acc)
}

/// A usable timestamp resolution is at least one unit per second.
pub open spec fn units_wf(u: Option<u32>) -> bool {
    match u {
        Some(x) => x >= 1,
        None => true,
    }
}

/// A decoded interface description block.
#[derive(Clone, PartialEq, Eq, Debug)]
pub struct InterfaceDescription {
    /// The link layer type of this interface.
    pub link_type: LinkType,
    /// Maximum octets captured from each packet; `None` when the writer
    /// declared no limit (an on-disk value of zero).
    pub snap_len: Option<u32>,
    /// Name of the capturing device.
    pub if_name: String,
    /// Description of the capturing device.
    pub if_description: String,
    /// IPv4 address and netmask pairs, eight bytes each, repeatable.
    pub if_ipv4_addr: Vec<Vec<u8>>,
    /// IPv6 address and prefix-length tuples, seventeen bytes each,
    /// repeatable.
    pub if_ipv6_addr: Vec<Vec<u8>>,
    /// Hardware MAC address, six bytes.
    pub if_mac_addr: Option<Vec<u8>>,
    /// Hardware EUI address, eight bytes.
    pub if_eui_addr: Option<Vec<u8>>,
    /// Interface speed in bits per second.
    pub if_speed: Option<u64>,
    /// Timestamp units per second, decoded from the resolution option;
    /// 10^6 when the option is absent, `None` when the declared resolution
    /// does not fit a 32-bit unsigned (timestamps are then unusable).
    pub units_per_sec: Option<u32>,
    /// Time zone option, kept raw.
    pub if_tzone: Option<Vec<u8>>,
    /// Capture filter; the first octet encodes the filter kind.
    pub if_filter: String,
    /// Operating system of the capturing machine.
    pub if_os: String,
    /// Frame check sequence length option, kept raw (one byte, in bits).
    pub if_fcslen: Option<Vec<u8>>,
    /// Timestamp offset option, kept raw (eight bytes, signed seconds).
    pub if_tsoffset: Option<Vec<u8>>,
    /// Description of the interface hardware.
    pub if_hardware: String,
    /// Transmit speed option, kept raw (eight bytes, bits per second).
    pub if_txspeed: Option<Vec<u8>>,
    /// Receive speed option, kept raw (eight bytes, bits per second).
    pub if_rxspeed: Option<Vec<u8>>,
}

/// The mathematical shape of a decoded interface description block.
#[verifier::ext_equal]
pub struct InterfaceDescriptionModel {
    pub link_type: LinkType,
    pub snap_len: Option<u32>,
    pub if_name: Seq<char>,
    pub if_description: Seq<char>,
    pub if_ipv4_addr: Seq<Seq<u8>>,
    pub if_ipv6_addr: Seq<Seq<u8>>,
    pub if_mac_addr: Option<Seq<u8>>,
    pub if_eui_addr: Option<Seq<u8>>,
    pub if_speed: Option<u64>,
    pub units_per_sec: Option<u32>,
    pub if_tzone: Option<Seq<u8>>,
    pub if_filter: Seq<char>,
    pub if_os: Seq<char>,
    pub if_fcslen: Option<Seq<u8>>,
    pub if_tsoffset: Option<Seq<u8>>,
    pub if_hardware: Seq<char>,
    pub if_txspeed: Option<Seq<u8>>,
    pub if_rxspeed: Option<Seq<u8>>,
}

/// An optional byte vector abstracted to an optional byte sequence.
pub open spec fn opt_bytes_view(v: Option<Vec<u8>>) -> Option<Seq<u8>> {
    match v {
        Some(b) => Some(b@),
        None => None,
    }
}

impl View for InterfaceDescription {
    type V = InterfaceDescriptionModel;

    open spec fn view(&self) -> InterfaceDescriptionModel {
        InterfaceDescriptionModel {
            link_type: self.link_type,
            snap_len: self.snap_len,
            if_name: self.if_name@,
            if_description: self.if_description@,
            if_ipv4_addr: self.if_ipv4_addr@.map(|i: int, v: Vec<u8>| v@),
            if_ipv6_addr: self.if_ipv6_addr@.map(|i: int, v: Vec<u8>| v@),
            if_mac_addr: opt_bytes_view(self.if_mac_addr),
            if_eui_addr: opt_bytes_view(self.if_eui_addr),
            if_speed: self.if_speed,
            units_per_sec: self.units_per_sec,
            if_tzone: opt_bytes_view(self.if_tzone),
            if_filter: self.if_filter@,
            if_os: self.if_os@,
            if_fcslen: opt_bytes_view(self.if_fcslen),
            if_tsoffset: opt_bytes_view(self.if_tsoffset),
            if_hardware: self.if_hardware@,
            if_txspeed: opt_bytes_view(self.if_txspeed),
            if_rxspeed: opt_bytes_view(self.if_rxspeed),
        }
    }
}

/// A fixed-length option value, or nothing when the length is wrong.
pub open spec fn spec_sized(v: Seq<u8>, len: int) -> Option<Seq<u8>> {
    if v.len() == len {
        Some(v)
    } else {
        None
    }
}

/// One option record applied to a partially decoded interface description.
pub open spec fn idb_apply(
    m: InterfaceDescriptionModel,
    code: u16,
    v: Seq<u8>,
    e: Endianness,
) -> InterfaceDescriptionModel {
    if code == 2 {
        InterfaceDescriptionModel { if_name: lossy_utf8(v), ..m }
    } else if code == 3 {
        InterfaceDescriptionModel { if_description: lossy_utf8(v), ..m }
    } else if code == 4 {
        if v.len() == 8 {
            InterfaceDescriptionModel { if_ipv4_addr: m.if_ipv4_addr.push(v), ..m }
        } else {
            m
        }
    } else if code == 5 {
        if v.len() == 17 {
            InterfaceDescriptionModel { if_ipv6_addr: m.if_ipv6_addr.push(v), ..m }
        } else {
            m
        }
    } else if code == 6 {
        InterfaceDescriptionModel { if_mac_addr: spec_sized(v, 6), ..m }
    } else if code == 7 {
        InterfaceDescriptionModel { if_eui_addr: spec_sized(v, 8), ..m }
    } else if code == 8 {
        InterfaceDescriptionModel { if_speed: spec_bytes_to_u64(v, e), ..m }
    } else if code == 9 {
        if v.len() == 1 {
            InterfaceDescriptionModel { units_per_sec: spec_tsresol_units(v[0]), ..m }
        } else {
            m
        }
    } else if code == 10 {
        InterfaceDescriptionModel { if_tzone: spec_sized(v, 4), ..m }
    } else if code == 11 {
        InterfaceDescriptionModel { if_filter: lossy_utf8(v), ..m }
    } else if code == 12 {
        InterfaceDescriptionModel { if_os: lossy_utf8(v), ..m }
    } else if code == 13 {
        InterfaceDescriptionModel { if_fcslen: spec_sized(v, 1), ..m }
    } else if code == 14 {
        InterfaceDescriptionModel { if_tsoffset: spec_sized(v, 8), ..m }
    } else if code == 15 {
        InterfaceDescriptionModel { if_hardware: lossy_utf8(v), ..m }
    } else if code == 16 {
        InterfaceDescriptionModel { if_txspeed: spec_sized(v, 8), ..m }
    } else if code == 17 {
        InterfaceDescriptionModel { if_rxspeed: spec_sized(v, 8), ..m }
    } else {
        m
    }
}

/// The option records of `opts`, applied left to right.
pub open spec fn idb_fold(
    m: InterfaceDescriptionModel,
    opts: Seq<(u16, Seq<u8>)>,
    e: Endianness,
) -> InterfaceDescriptionModel
    decreases opts.len(),
{
    if opts.len() == 0 {
        m
    } else {
        idb_fold(idb_apply(m, opts[0].0, opts[0].1, e), opts.skip(1), e)
    }
}

/// The interface description before any option is applied: microsecond
/// resolution, no limit information beyond the fixed fields.
pub open spec fn idb_base(body: Seq<u8>, e: Endianness) -> InterfaceDescriptionModel {
    InterfaceDescriptionModel {
        link_type: LinkType::spec_from_u16(spec_u16(body, 0, e)),
        snap_len: if spec_u32(body, 4, e) == 0 {
            None
        } else {
            Some(spec_u32(body, 4, e))
        },
        if_name: Seq::empty(),
        if_description: Seq::empty(),
        if_ipv4_addr: Seq::empty(),
        if_ipv6_addr: Seq::empty(),
        if_mac_addr: None,
        if_eui_addr: None,
        if_speed: None,
        units_per_sec: Some(1_000_000),
        if_tzone: None,
        if_filter: Seq::empty(),
        if_os: Seq::empty(),
        if_fcslen: None,
        if_tsoffset: None,
        if_hardware: Seq::empty(),
        if_txspeed: None,
        if_rxspeed: None,
    }
}

/// What decoding an interface description block body yields.
pub open spec fn spec_parse_idb(body: Seq<u8>, e: Endianness) -> Result<
    InterfaceDescriptionModel,
    BlockError,
> {
    if body.len() < 8 {
        Err(BlockError::TruncatedBlock)
    } else {
        Ok(idb_fold(idb_base(body, e), spec_options(body.skip(8), e), e))
    }
}

/// Applying one option cannot make a usable resolution zero, so a whole
/// option list cannot either.
pub proof fn lemma_idb_fold_units(
    m: InterfaceDescriptionModel,
    opts: Seq<(u16, Seq<u8>)>,
    e: Endianness,
)
    requires
        units_wf(m.units_per_sec),
    ensures
        units_wf(idb_fold(m, opts, e).units_per_sec),
    decreases opts.len(),
{
    if opts.len() == 0 {
    } else {
        let code = opts[0].0;
        let v = opts[0].1;
        assert(units_wf(idb_apply(m, code, v, e).units_per_sec)) by {
            if code == 9 && v.len() == 1 {
                let b = v[0];
                let base: int = if b >= 128 {
                    2
                } else {
                    10
                };
                lemma_pow_positive(base, (b % 128) as nat);
            }
        }
        lemma_idb_fold_units(idb_apply(m, code, v, e), opts.skip(1), e);
    }
}

/// Whatever an interface description block decodes to, a usable resolution
/// in it is at least one unit per second.
pub proof fn lemma_parse_idb_units(body: Seq<u8>, e: Endianness)
    ensures
        spec_parse_idb(body, e) matches Ok(m) ==> units_wf(m.units_per_sec),
{
    if body.len() >= 8 {
        lemma_idb_fold_units(idb_base(body, e), spec_options(body.skip(8), e), e);
    }
}

impl InterfaceDescription {
    /// Decode an interface description block body.
    pub fn parse(body: &[u8], e: Endianness) -> (r: Result<InterfaceDescription, BlockError>)
        ensures
            match r {
                Ok(b) => spec_parse_idb(body@, e) == Ok::<InterfaceDescriptionModel, BlockError>(
                    b@,
                ) && units_wf(b@.units_per_sec),
                Err(er) => spec_parse_idb(body@, e) == Err::<
                    InterfaceDescriptionModel,
                    BlockError,
                >(er),
            },
    {
        let n: usize = body.len();
        if n < 8 {
            return Err(BlockError::TruncatedBlock);
        }
        let snap_raw = read_u32(body, 4, e);
        let mut m = InterfaceDescription {
            link_type: LinkType::from_u16(read_u16(body, 0, e)),
            snap_len: if snap_raw == 0 {
                None
            } else {
                Some(snap_raw)
            },
            if_name: String::new(),
            if_description: String::new(),
            if_ipv4_addr: Vec::new(),
            if_ipv6_addr: Vec::new(),
            if_mac_addr: None,
            if_eui_addr: None,
            if_speed: None,
            units_per_sec: Some(1_000_000),
            if_tzone: None,
            if_filter: String::new(),
            if_os: String::new(),
            if_fcslen: None,
            if_tsoffset: None,
            if_hardware: String::new(),
            if_txspeed: None,
            if_rxspeed: None,
        };
        assert(m@ =~~= idb_base(body@, e));
        let ghost base = m@;
        let opts = parse_options(&body[8..n], e);
        let ghost all = opts_view(opts@);
        proof {
            assert(body@.subrange(8, n as int) =~= body@.skip(8));
            assert(all.skip(0) =~= all);
        }
        let mut i: usize = 0;
        while i < opts.len()
            invariant
                i <= opts@.len(),
                all == opts_view(opts@),
                idb_fold(m@, all.skip(i as int), e) == idb_fold(base, all, e),
            decreases opts@.len() - i,
        {
            let code = opts[i].0;
            let v = &opts[i].1;
            proof {
                assert(all.skip(i as int)[0] == (code, v@));
                assert(all.skip(i as int).skip(1) =~= all.skip(i as int + 1));
            }
            let ghost before = m@;
            if code == 2 {
                m.if_name = lossy_string(v.as_slice());
            } else if code == 3 {
                m.if_description = lossy_string(v.as_slice());
            } else if code == 4 {
                if v.len() == 8 {
                    let copy = copy_range(v.as_slice(), 0, v.len());
                    assert(copy@ =~= v@);
                    m.if_ipv4_addr.push(copy);
                }
            } else if code == 5 {
                if v.len() == 17 {
                    let copy = copy_range(v.as_slice(), 0, v.len());
                    assert(copy@ =~= v@);
                    m.if_ipv6_addr.push(copy);
                }
            } else if code == 6 {
                m.if_mac_addr = Self::sized_copy(v, 6);
            } else if code == 7 {
                m.if_eui_addr = Self::sized_copy(v, 8);
            } else if code == 8 {
                m.if_speed = bytes_to_u64(v.as_slice(), e);
            } else if code == 9 {
                if v.len() == 1 {
                    let b = v[0];
                    let base_val: u32 = if b >= 128 {
                        2
                    } else {
                        10
                    };
                    let exp: u32 = (b % 128) as u32;
                    m.units_per_sec = checked_pow_u32(base_val, exp);
                    assert(m.units_per_sec == spec_tsresol_units(b));
                }
            } else if code == 10 {
                m.if_tzone = Self::sized_copy(v, 4);
            } else if code == 11 {
                m.if_filter = lossy_string(v.as_slice());
            } else if code == 12 {
                m.if_os = lossy_string(v.as_slice());
            } else if code == 13 {
                m.if_fcslen = Self::sized_copy(v, 1);
            } else if code == 14 {
                m.if_tsoffset = Self::sized_copy(v, 8);
            } else if code == 15 {
                m.if_hardware = lossy_string(v.as_slice());
            } else if code == 16 {
                m.if_txspeed = Self::sized_copy(v, 8);
            } else if code == 17 {
                m.if_rxspeed = Self::sized_copy(v, 8);
            }
            assert(m@ =~~= idb_apply(before, code, v@, e));
            i = i + 1;
        }
        proof {
            assert(all.skip(opts@.len() as int) =~= Seq::empty());
            lemma_idb_fold_units(base, all, e);
        }
        Ok(m)
    }

    /// A copy of `v` when it has exactly `len` bytes, nothing otherwise.
    fn sized_copy(v: &Vec<u8>, len: usize) -> (r: Option<Vec<u8>>)
        ensures
            opt_bytes_view(r) == spec_sized(v@, len as int),
    {
        if v.len() == len {
            let copy = copy_range(v.as_slice(), 0, v.len());
            assert(copy@ =~= v@);
            Some(copy)
        } else {
            None
        }
    }
}

} // verus!
