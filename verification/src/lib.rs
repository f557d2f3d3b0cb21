//! A verified reader for pcap-ng capture files.
//!
//! The crate decodes the block-oriented pcap-ng format: a capture file is one
//! or more sections, each opened by a section header block that fixes the byte
//! order for the blocks that follow.  Blocks carry interface descriptions,
//! packets, name resolutions and statistics.  The reader frames blocks out of
//! a byte buffer, decodes each into a typed value, tracks the per-section
//! interface table, and yields packets with resolved timestamps.

pub mod block;
pub mod capture;
pub mod epb;
pub mod error;
pub mod frame;
pub mod idb;
pub mod iface;
pub mod opb;
pub mod packet;
pub mod rdr;
pub mod isb;
pub mod laws;
pub mod nrb;
pub mod shb;
pub mod spb;
pub mod link_type;
pub mod opts;
pub mod strings;
pub mod util;
