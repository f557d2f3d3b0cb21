//! The packet type the capture engine yields, and the conversion from raw
//! timestamps to wall-clock time.

use vstd::prelude::*;
use crate::iface::InterfaceId;

verus! {

/// A point in time: whole seconds since 1970-01-01 UTC and nanoseconds
/// within the second.
#[derive(Clone, Copy, PartialEq, Eq, Debug, Structural)]
pub struct WallClock {
    /// Whole seconds since the epoch.
    pub secs: u64,
    /// Nanoseconds within the second; always below one billion.
    pub nanos: u32,
}

/// The wall-clock reading of `ts` units since the epoch at `units` units per
/// second: `ts / units` seconds, and the remainder scaled to nanoseconds.
pub open spec fn spec_wall_clock(ts: u64, units: u32) -> WallClock {
    WallClock {
        secs: (ts as int / units as int) as u64,
        nanos: ((ts as int % units as int) * 1_000_000_000 / units as int) as u32,
    }
}

/// Convert a unit count since the epoch to wall-clock time.
pub fn wall_clock(ts: u64, units: u32) -> (r: WallClock)
    requires
        units >= 1,
    ensures
        r == spec_wall_clock(ts, units),
        r.nanos < 1_000_000_000,
{
    let u = units as u64;
    let secs = ts / u;
    let rem = ts % u;
    assert(rem < u);
    assert((rem as int) * 1_000_000_000 / (u as int) < 1_000_000_000) by (nonlinear_arith)
        requires
            0 <= (rem as int),
            (rem as int) < (u as int),
    ;
    let nanos = (rem * 1_000_000_000 / u) as u32;
    WallClock { secs, nanos }
}

/// A single captured packet.
#[derive(Clone, PartialEq, Eq, Debug)]
pub struct Packet {
    /// When the packet was captured, if the block carried a timestamp and a
    /// usable interface defined its resolution.
    pub timestamp: Option<WallClock>,
    /// The interface the packet was captured on, when the block named one
    /// that the current section defines.
    pub interface: Option<InterfaceId>,
    /// The packet payload.
    pub data: Vec<u8>,
    /// Byte offset of the payload within the underlying input.
    pub data_start: usize,
    /// End (exclusive) of the payload within the underlying input.
    pub data_end: usize,
}

/// The mathematical shape of a packet.
#[verifier::ext_equal]
pub struct PacketModel {
    pub timestamp: Option<WallClock>,
    pub interface: Option<InterfaceId>,
    pub data: Seq<u8>,
    pub data_start: int,
    pub data_end: int,
}

impl View for Packet {
    type V = PacketModel;

    open spec fn view(&self) -> PacketModel {
        PacketModel {
            timestamp: self.timestamp,
            interface: self.interface,
            data: self.data@,
            data_start: self.data_start as int,
            data_end: self.data_end as int,
        }
    }
}

} // verus!
