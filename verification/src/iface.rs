//! Interfaces: the per-section table entries that packets refer to.

use vstd::prelude::*;
use crate::idb::InterfaceDescription;
use crate::idb::InterfaceDescriptionModel;
use crate::isb::InterfaceStatistics;
use crate::link_type::LinkType;
use crate::packet::WallClock;
use crate::packet::spec_wall_clock;
use crate::packet::wall_clock;
use crate::util::Timestamp;

verus! {

/// The identity of a network interface: the section it was described in and
/// its index within that section's interface table.  Packets from different
/// sections carry different identifiers even when they were captured from
/// the same physical interface.
#[derive(Clone, Copy, PartialEq, Eq, Debug, Structural)]
pub struct InterfaceId(pub usize, pub usize);

/// A network interface of the current section: its description and, when an
/// interface statistics block has been seen for it, the latest statistics.
#[derive(Clone, PartialEq, Eq, Debug)]
pub struct Interface {
    /// Identity of this interface: (section, index within section).
    pub id: InterfaceId,
    /// The decoded interface description block.
    pub descr: InterfaceDescription,
    /// The latest statistics snapshot, if any.
    pub stats: Option<InterfaceStatistics>,
}

/// The mathematical shape of an interface record.
#[verifier::ext_equal]
pub struct InterfaceModel {
    pub id: InterfaceId,
    pub descr: InterfaceDescriptionModel,
    pub stats: Option<InterfaceStatistics>,
}

impl View for Interface {
    type V = InterfaceModel;

    open spec fn view(&self) -> InterfaceModel {
        InterfaceModel { id: self.id, descr: self.descr@, stats: self.stats }
    }
}

impl Interface {
    /// The time a raw timestamp of this interface denotes, when the
    /// interface's resolution is usable (present and nonzero).
    pub fn resolve_ts(&self, ts: Timestamp) -> (r: Option<WallClock>)
        ensures
            r == (match self@.descr.units_per_sec {
                Some(u) => if u >= 1 {
                    Some(spec_wall_clock(ts.0, u))
                } else {
                    None::<WallClock>
                },
                None => None::<WallClock>,
            }),
    {
        match self.descr.units_per_sec {
            Some(u) => if u >= 1 {
                Some(wall_clock(ts.0, u))
            } else {
                None
            },
            None => None,
        }
    }

    /// The link layer type of this interface.
    pub fn link_type(&self) -> (r: LinkType)
        ensures
            r == self@.descr.link_type,
    {
        self.descr.link_type
    }

    /// Maximum octets captured from each packet, if limited.
    pub fn snap_len(&self) -> (r: Option<u32>)
        ensures
            r == self@.descr.snap_len,
    {
        self.descr.snap_len
    }

    /// Name of the capturing device.
    pub fn name(&self) -> (r: &str)
        ensures
            r@ == self@.descr.if_name,
    {
        self.descr.if_name.as_str()
    }

    /// Description of the capturing device.
    pub fn description(&self) -> (r: &str)
        ensures
            r@ == self@.descr.if_description,
    {
        self.descr.if_description.as_str()
    }

    /// IPv4 address and netmask pairs of the interface.
    pub fn ipv4_addrs(&self) -> (r: &Vec<Vec<u8>>)
        ensures
            r@.map(|i: int, v: Vec<u8>| v@) == self@.descr.if_ipv4_addr,
    {
        &self.descr.if_ipv4_addr
    }

    /// IPv6 address and prefix-length tuples of the interface.
    pub fn ipv6_addrs(&self) -> (r: &Vec<Vec<u8>>)
        ensures
            r@.map(|i: int, v: Vec<u8>| v@) == self@.descr.if_ipv6_addr,
    {
        &self.descr.if_ipv6_addr
    }

    /// Hardware MAC address, if available.
    pub fn mac_addr(&self) -> (r: &Option<Vec<u8>>)
        ensures
            crate::idb::opt_bytes_view(*r) == self@.descr.if_mac_addr,
    {
        &self.descr.if_mac_addr
    }

    /// Hardware EUI address, if available.
    pub fn eui_addr(&self) -> (r: &Option<Vec<u8>>)
        ensures
            crate::idb::opt_bytes_view(*r) == self@.descr.if_eui_addr,
    {
        &self.descr.if_eui_addr
    }

    /// Interface speed in bits per second, if declared.
    pub fn speed(&self) -> (r: Option<u64>)
        ensures
            r == self@.descr.if_speed,
    {
        self.descr.if_speed
    }

    /// The raw time zone option, if present.
    pub fn tzone(&self) -> (r: &Option<Vec<u8>>)
        ensures
            crate::idb::opt_bytes_view(*r) == self@.descr.if_tzone,
    {
        &self.descr.if_tzone
    }

    /// The capture filter.
    pub fn filter(&self) -> (r: &str)
        ensures
            r@ == self@.descr.if_filter,
    {
        self.descr.if_filter.as_str()
    }

    /// Operating system of the capturing machine.
    pub fn os(&self) -> (r: &str)
        ensures
            r@ == self@.descr.if_os,
    {
        self.descr.if_os.as_str()
    }

    /// The raw frame-check-sequence-length option, if present.
    pub fn fcslen(&self) -> (r: &Option<Vec<u8>>)
        ensures
            crate::idb::opt_bytes_view(*r) == self@.descr.if_fcslen,
    {
        &self.descr.if_fcslen
    }

    /// The raw timestamp-offset option, if present.
    pub fn tsoffset(&self) -> (r: &Option<Vec<u8>>)
        ensures
            crate::idb::opt_bytes_view(*r) == self@.descr.if_tsoffset,
    {
        &self.descr.if_tsoffset
    }

    /// Description of the interface hardware.
    pub fn hardware(&self) -> (r: &str)
        ensures
            r@ == self@.descr.if_hardware,
    {
        self.descr.if_hardware.as_str()
    }

    /// The raw transmit-speed option, if present.
    pub fn txspeed(&self) -> (r: &Option<Vec<u8>>)
        ensures
            crate::idb::opt_bytes_view(*r) == self@.descr.if_txspeed,
    {
        &self.descr.if_txspeed
    }

    /// The raw receive-speed option, if present.
    pub fn rxspeed(&self) -> (r: &Option<Vec<u8>>)
        ensures
            crate::idb::opt_bytes_view(*r) == self@.descr.if_rxspeed,
    {
        &self.descr.if_rxspeed
    }

    /// The time of the latest statistics snapshot, if one was seen and the
    /// resolution is usable.
    pub fn stats_timestamp(&self) -> (r: Option<WallClock>)
        ensures
            r == (match self@.stats {
                Some(s) => (match self@.descr.units_per_sec {
                    Some(u) => if u >= 1 {
                        Some(spec_wall_clock(s.timestamp.0, u))
                    } else {
                        None::<WallClock>
                    },
                    None => None::<WallClock>,
                }),
                None => None::<WallClock>,
            }),
    {
        match &self.stats {
            Some(s) => self.resolve_ts(s.timestamp),
            None => None,
        }
    }

    /// When the capture started, if the statistics say and the resolution
    /// is usable.
    pub fn starttime(&self) -> (r: Option<WallClock>)
        ensures
            r == (match self@.stats {
                Some(s) => (match s.isb_starttime {
                    Some(t) => (match self@.descr.units_per_sec {
                        Some(u) => if u >= 1 {
                            Some(spec_wall_clock(t.0, u))
                        } else {
                            None::<WallClock>
                        },
                        None => None::<WallClock>,
                    }),
                    None => None::<WallClock>,
                }),
                None => None::<WallClock>,
            }),
    {
        match &self.stats {
            Some(s) => match s.isb_starttime {
                Some(t) => self.resolve_ts(t),
                None => None,
            },
            None => None,
        }
    }

    /// When the capture ended, if the statistics say and the resolution is
    /// usable.
    pub fn endtime(&self) -> (r: Option<WallClock>)
        ensures
            r == (match self@.stats {
                Some(s) => (match s.isb_endtime {
                    Some(t) => (match self@.descr.units_per_sec {
                        Some(u) => if u >= 1 {
                            Some(spec_wall_clock(t.0, u))
                        } else {
                            None::<WallClock>
                        },
                        None => None::<WallClock>,
                    }),
                    None => None::<WallClock>,
                }),
                None => None::<WallClock>,
            }),
    {
        match &self.stats {
            Some(s) => match s.isb_endtime {
                Some(t) => self.resolve_ts(t),
                None => None,
            },
            None => None,
        }
    }

    /// Packets received from the physical interface, if the statistics say.
    pub fn ifrecv(&self) -> (r: Option<u64>)
        ensures
            r == (match self@.stats {
                Some(s) => s.isb_ifrecv,
                None => None::<u64>,
            }),
    {
        match &self.stats {
            Some(s) => s.isb_ifrecv,
            None => None,
        }
    }

    /// Packets dropped by the interface, if the statistics say.
    pub fn ifdrop(&self) -> (r: Option<u64>)
        ensures
            r == (match self@.stats {
                Some(s) => s.isb_ifdrop,
                None => None::<u64>,
            }),
    {
        match &self.stats {
            Some(s) => s.isb_ifdrop,
            None => None,
        }
    }

    /// Packets accepted by the filter, if the statistics say.
    pub fn filter_accept(&self) -> (r: Option<u64>)
        ensures
            r == (match self@.stats {
                Some(s) => s.isb_filter_accept,
                None => None::<u64>,
            }),
    {
        match &self.stats {
            Some(s) => s.isb_filter_accept,
            None => None,
        }
    }

    /// Packets dropped by the operating system, if the statistics say.
    pub fn osdrop(&self) -> (r: Option<u64>)
        ensures
            r == (match self@.stats {
                Some(s) => s.isb_osdrop,
                None => None::<u64>,
            }),
    {
        match &self.stats {
            Some(s) => s.isb_osdrop,
            None => None,
        }
    }

    /// Packets delivered to the user, if the statistics say.
    pub fn usrdeliv(&self) -> (r: Option<u64>)
        ensures
            r == (match self@.stats {
                Some(s) => s.isb_usrdeliv,
                None => None::<u64>,
            }),
    {
        match &self.stats {
            Some(s) => s.isb_usrdeliv,
            None => None,
        }
    }
}

/// The timestamp resolution of an interface as a unit count, on its own.
#[derive(Clone, Copy, PartialEq, Eq, Debug, Structural)]
pub struct TimestampOptions {
    /// Timestamp units per second.
    pub units_per_sec: u32,
}

impl TimestampOptions {
    /// The default resolution: microseconds.
    pub fn new() -> (r: TimestampOptions)
        ensures
            r.units_per_sec == 1_000_000,
    {
        TimestampOptions { units_per_sec: 1_000_000 }
    }
}

} // verus!
