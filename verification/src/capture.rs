//! The capture engine: consume the block sequence, maintain the current
//! section's interface table and name resolutions, and yield packets.
//!
//! `spec_next` is the mathematical account of one `advance`: it walks blocks
//! from the reader's cursor until a packet is emitted, an error arises, or
//! the input ends, updating the section state on the way.  One corrupt block
//! does not poison the rest of the section: a corrupt section header still
//! starts a new section, a corrupt interface description inserts a
//! placeholder so later interface indices stay stable, and corrupt packet
//! and statistics blocks are skipped — each is reported once.

use vstd::prelude::*;
use crate::block::Block;
use crate::block::BlockModel;
use crate::block::BlockType;
use crate::error::Error;
use crate::iface::Interface;
use crate::iface::InterfaceId;
use crate::iface::InterfaceModel;
use crate::idb::InterfaceDescription;
use crate::idb::InterfaceDescriptionModel;
use crate::idb::units_wf;
use crate::link_type::LinkType;
use crate::nrb::NameResolution;
use crate::nrb::NameResolutionModel;
use crate::packet::Packet;
use crate::packet::PacketModel;
use crate::packet::WallClock;
use crate::packet::spec_wall_clock;
use crate::packet::wall_clock;
use crate::error::BlockError;
use crate::rdr::BlockReader;
use crate::rdr::FramedBlockModel;
use crate::rdr::RdrModel;
use crate::rdr::rdr_initial;
use crate::rdr::rdr_wf;
use crate::rdr::spec_try_next;
use crate::util::copy_range;

verus! {

/// The state of a capture.
#[verifier::ext_equal]
pub struct CaptureModel {
    /// The block reader's state.
    pub rdr: RdrModel,
    /// How many section headers have been seen.
    pub sections: int,
    /// The current section's interface table.
    pub ifaces: Seq<InterfaceModel>,
    /// The current section's name resolution blocks.
    pub resolved: Seq<NameResolutionModel>,
    /// The packet the last `advance` produced, if any.
    pub current: Option<PacketModel>,
}

/// Index of the current section: sections are numbered from zero, and the
/// count was bumped when the current one began.
pub open spec fn sec_index(sections: int) -> int {
    if sections == 0 {
        0
    } else {
        sections - 1
    }
}

/// The description a corrupt interface description block leaves behind: it
/// keeps later interface indices stable, and its timestamps are unusable.
pub open spec fn idb_placeholder() -> InterfaceDescriptionModel {
    InterfaceDescriptionModel {
        link_type: LinkType::Unknown(0),
        snap_len: None,
        if_name: Seq::empty(),
        if_description: Seq::empty(),
        if_ipv4_addr: Seq::empty(),
        if_ipv6_addr: Seq::empty(),
        if_mac_addr: None,
        if_eui_addr: None,
        if_speed: None,
        units_per_sec: None,
        if_tzone: None,
        if_filter: Seq::empty(),
        if_os: Seq::empty(),
        if_fcslen: None,
        if_tsoffset: None,
        if_hardware: Seq::empty(),
        if_txspeed: None,
        if_rxspeed: None,
    }
}

/// The interface entry appended for the next interface description of the
/// current section.
pub open spec fn new_entry(st: CaptureModel, d: InterfaceDescriptionModel) -> InterfaceModel {
    InterfaceModel {
        id: InterfaceId(sec_index(st.sections) as usize, st.ifaces.len() as usize),
        descr: d,
        stats: None,
    }
}

/// The timestamp of a packet that names interface `iid`: computed only when
/// that interface is in the table and its resolution is usable.
pub open spec fn spec_packet_time(
    ifaces: Seq<InterfaceModel>,
    iid: int,
    ts: u64,
) -> Option<WallClock> {
    if 0 <= iid < ifaces.len() {
        match ifaces[iid].descr.units_per_sec {
            Some(u) => Some(spec_wall_clock(ts, u)),
            None => None,
        }
    } else {
        None
    }
}

/// The packet emitted for a packet block naming interface `iid` (or none)
/// with raw timestamp `ts`, payload `data` standing at `start` in the input.
pub open spec fn spec_emit(
    st: CaptureModel,
    iid: Option<u32>,
    ts: u64,
    data: Seq<u8>,
    start: int,
) -> PacketModel {
    PacketModel {
        timestamp: match iid {
            Some(i) => spec_packet_time(st.ifaces, i as int, ts),
            None => None,
        },
        interface: match iid {
            Some(i) => if (i as int) < st.ifaces.len() {
                Some(InterfaceId(sec_index(st.sections) as usize, i as usize))
            } else {
                None
            },
            None => None,
        },
        data: data,
        data_start: start,
        data_end: start + data.len(),
    }
}

/// What one `advance` yields from state `st`: the new state and either a
/// packet, an error, or end-of-stream.  Blocks that carry no packet are
/// consumed and the walk continues.
pub open spec fn spec_next(st: CaptureModel) -> (CaptureModel, Option<Result<PacketModel, Error>>)
    decreases st.rdr.data.len() - st.rdr.pos
        when rdr_wf(st.rdr)
{
    let (rdr2, item) = spec_try_next(st.rdr);
    match item {
        None => (CaptureModel { rdr: rdr2, current: None, ..st }, None),
        Some(Err(err)) => (CaptureModel { rdr: rdr2, current: None, ..st }, Some(Err(err))),
        Some(Ok(fb)) => {
            let st1 = CaptureModel { rdr: rdr2, ..st };
            match fb.block {
                Err(be) => {
                    if fb.block_type == BlockType::SectionHeader {
                        // a corrupt section header still starts a section
                        (
                            CaptureModel {
                                sections: st1.sections + 1,
                                ifaces: Seq::empty(),
                                resolved: Seq::empty(),
                                current: None,
                                ..st1
                            },
                            Some(Err(Error::Block(be))),
                        )
                    } else if fb.block_type == BlockType::InterfaceDescription {
                        // a corrupt interface description leaves a placeholder
                        (
                            CaptureModel {
                                ifaces: st1.ifaces.push(new_entry(st1, idb_placeholder())),
                                current: None,
                                ..st1
                            },
                            Some(Err(Error::Block(be))),
                        )
                    } else {
                        (CaptureModel { current: None, ..st1 }, Some(Err(Error::Block(be))))
                    }
                },
                Ok(bm) => match bm {
                    BlockModel::SectionHeader(_) => spec_next(
                        CaptureModel {
                            sections: st1.sections + 1,
                            ifaces: Seq::empty(),
                            resolved: Seq::empty(),
                            ..st1
                        },
                    ),
                    BlockModel::InterfaceDescription(d) => spec_next(
                        CaptureModel { ifaces: st1.ifaces.push(new_entry(st1, d)), ..st1 },
                    ),
                    BlockModel::EnhancedPacket(p) => {
                        let pkt = spec_emit(
                            st1,
                            Some(p.interface_id),
                            p.timestamp.0,
                            p.packet_data,
                            fb.start + 28,
                        );
                        (CaptureModel { current: Some(pkt), ..st1 }, Some(Ok(pkt)))
                    },
                    BlockModel::SimplePacket(p) => {
                        let pkt = spec_emit(st1, None, 0, p.packet_data, fb.start + 12);
                        (CaptureModel { current: Some(pkt), ..st1 }, Some(Ok(pkt)))
                    },
                    BlockModel::ObsoletePacket(p) => {
                        let pkt = spec_emit(
                            st1,
                            Some(p.interface_id as u32),
                            p.timestamp.0,
                            p.packet_data,
                            fb.start + 28,
                        );
                        (CaptureModel { current: Some(pkt), ..st1 }, Some(Ok(pkt)))
                    },
                    BlockModel::NameResolution(nm) => spec_next(
                        CaptureModel { resolved: st1.resolved.push(nm), ..st1 },
                    ),
                    BlockModel::InterfaceStatistics(s) => {
                        if (s.interface_id as int) < st1.ifaces.len() {
                            let entry = st1.ifaces[s.interface_id as int];
                            spec_next(
                                CaptureModel {
                                    ifaces: st1.ifaces.update(
                                        s.interface_id as int,
                                        InterfaceModel { stats: Some(s), ..entry },
                                    ),
                                    ..st1
                                },
                            )
                        } else {
                            // statistics for an undefined interface: ignored
                            spec_next(st1)
                        }
                    },
                    BlockModel::Unparsed(_) => spec_next(st1),
                },
            }
        },
    }
}

/// One interface table entry is well formed: it carries the identity of its
/// own slot, and a usable resolution is nonzero.
pub open spec fn iface_entry_wf(m: InterfaceModel, sec: int, i: int) -> bool {
    &&& m.id == InterfaceId(sec as usize, i as usize)
    &&& units_wf(m.descr.units_per_sec)
}

/// Well-formedness of a capture: the reader is within its input, the section
/// count and table size are bounded by the bytes consumed (every block is at
/// least 12 bytes long), and every interface entry is well formed.
pub open spec fn capture_wf(st: CaptureModel) -> bool {
    &&& rdr_wf(st.rdr)
    &&& st.rdr.data.len() <= usize::MAX
    &&& 0 <= st.sections
    &&& 12 * st.sections <= st.rdr.pos
    &&& st.ifaces.len() <= st.rdr.pos
    &&& forall|i: int|
        0 <= i < st.ifaces.len() ==> iface_entry_wf(
            #[trigger] st.ifaces[i],
            sec_index(st.sections),
            i,
        )
}

/// A capture as it stands before any block was read.
pub open spec fn capture_initial(data: Seq<u8>) -> CaptureModel {
    CaptureModel {
        rdr: rdr_initial(data),
        sections: 0,
        ifaces: Seq::empty(),
        resolved: Seq::empty(),
        current: None,
    }
}

/// What `lookup_interface` answers on state `st` for identifier `id`: only
/// identifiers of the current section resolve.
pub open spec fn spec_lookup(st: CaptureModel, id: InterfaceId) -> Option<InterfaceModel> {
    if id.0 == sec_index(st.sections) as usize && (id.1 as int) < st.ifaces.len() {
        Some(st.ifaces[id.1 as int])
    } else {
        None
    }
}

/// A packet capture, iterated with `next` (or with `advance` and `get`).
pub struct Capture {
    inner: BlockReader,
    section_count: usize,
    interfaces: Vec<Interface>,
    resolved_names: Vec<NameResolution>,
    current: Option<Packet>,
}

impl View for Capture {
    type V = CaptureModel;

    closed spec fn view(&self) -> CaptureModel {
        CaptureModel {
            rdr: self.inner@,
            sections: self.section_count as int,
            ifaces: self.interfaces@.map(|i: int, x: Interface| x@),
            resolved: self.resolved_names@.map(|i: int, x: NameResolution| x@),
            current: match &self.current {
                Some(p) => Some(p@),
                None => None,
            },
        }
    }
}

impl Capture {
    /// Well-formedness; established by `new` and kept by every method.
    pub open spec fn wf(&self) -> bool {
        capture_wf(self@)
    }

    /// A capture over `data`.  No byte is read yet; the first block is read
    /// by the first `next`.
    pub fn new(data: Vec<u8>) -> (r: Capture)
        ensures
            r@ == capture_initial(data@),
            r.wf(),
    {
        let n: usize = data.len();
        assert(data@.len() == n);
        let r = Capture {
            inner: BlockReader::new(data),
            section_count: 0,
            interfaces: Vec::new(),
            resolved_names: Vec::new(),
            current: None,
        };
        proof {
            assert(r@ =~~= capture_initial(r@.rdr.data));
        }
        r
    }

    /// Read blocks until a packet is produced, an error arises, or the input
    /// ends.  The packet, if any, is then available from `get`.
    #[verifier::rlimit(100)]
    pub fn advance(&mut self) -> (r: Result<(), Error>)
        requires
            old(self).wf(),
        ensures
            final(self).wf(),
            final(self)@ == spec_next(old(self)@).0,
            match spec_next(old(self)@).1 {
                Some(Err(e)) => r == Err::<(), Error>(e),
                _ => r == Ok::<(), Error>(()),
            },
    {
        let ghost orig = self@;
        loop
            invariant
                self.wf(),
                orig == old(self)@,
                self@.rdr.data == orig.rdr.data,
                spec_next(self@) == spec_next(orig),
            decreases self@.rdr.data.len() - self@.rdr.pos,
        {
            let ghost pre = self@;
            let item = self.inner.try_next();
            proof {
                assert(self@ =~~= CaptureModel { rdr: spec_try_next(pre.rdr).0, ..pre });
            }
            match item {
                None => {
                    self.current = None;
                    proof {
                        lemma_step_end(pre);
                        assert(self@ =~~= CaptureModel {
                            rdr: spec_try_next(pre.rdr).0,
                            current: None,
                            ..pre
                        });
                    }
                    return Ok(());
                },
                Some(Err(err)) => {
                    self.current = None;
                    proof {
                        lemma_step_err(pre, err);
                        assert(self@ =~~= CaptureModel {
                            rdr: spec_try_next(pre.rdr).0,
                            current: None,
                            ..pre
                        });
                    }
                    return Err(err);
                },
                Some(Ok(fb)) => {
                    let ghost fbm = fb@;
                    let ghost st1 = CaptureModel { rdr: spec_try_next(pre.rdr).0, ..pre };
                    let sec: usize = if self.section_count == 0 {
                        0
                    } else {
                        self.section_count - 1
                    };
                    assert(sec == sec_index(st1.sections) as usize);
                    let start = fb.start;
                    match fb.block {
                        Err(be) => {
                            proof {
                                lemma_step_block_err(pre, fbm, be);
                            }
                            if matches!(fb.block_type, BlockType::SectionHeader) {
                                self.section_count = self.section_count + 1;
                                self.interfaces.clear();
                                self.resolved_names.clear();
                                self.current = None;
                                proof {
                                    assert(self@ =~~= CaptureModel {
                                        sections: st1.sections + 1,
                                        ifaces: Seq::empty(),
                                        resolved: Seq::empty(),
                                        current: None,
                                        ..st1
                                    });
                                }
                                return Err(Error::Block(be));
                            } else if matches!(fb.block_type, BlockType::InterfaceDescription) {
                                let entry = Interface {
                                    id: InterfaceId(sec, self.interfaces.len()),
                                    descr: placeholder_descr(),
                                    stats: None,
                                };
                                self.interfaces.push(entry);
                                self.current = None;
                                proof {
                                    assert(self@.ifaces =~~= st1.ifaces.push(
                                        new_entry(st1, idb_placeholder()),
                                    ));
                                    assert(self@ =~~= CaptureModel {
                                        ifaces: st1.ifaces.push(new_entry(st1, idb_placeholder())),
                                        current: None,
                                        ..st1
                                    });
                                }
                                return Err(Error::Block(be));
                            } else {
                                self.current = None;
                                proof {
                                    assert(self@ =~~= CaptureModel { current: None, ..st1 });
                                }
                                return Err(Error::Block(be));
                            }
                        },
                        Ok(b) => match b {
                            Block::SectionHeader(_x) => {
                                self.section_count = self.section_count + 1;
                                self.interfaces.clear();
                                self.resolved_names.clear();
                                proof {
                                    lemma_step_skip(pre, fbm, fbm.block->Ok_0);
                                    assert(self@ =~~= CaptureModel {
                                        sections: st1.sections + 1,
                                        ifaces: Seq::empty(),
                                        resolved: Seq::empty(),
                                        ..st1
                                    });
                                    assert(spec_next(self@) == spec_next(orig));
                                }
                            },
                            Block::InterfaceDescription(d) => {
                                let entry = Interface {
                                    id: InterfaceId(sec, self.interfaces.len()),
                                    descr: d,
                                    stats: None,
                                };
                                let ghost dm = entry.descr@;
                                self.interfaces.push(entry);
                                proof {
                                    lemma_step_skip(pre, fbm, fbm.block->Ok_0);
                                    assert(self@.ifaces =~~= st1.ifaces.push(new_entry(st1, dm)));
                                    assert(self@ =~~= CaptureModel {
                                        ifaces: st1.ifaces.push(new_entry(st1, dm)),
                                        ..st1
                                    });
                                    assert(spec_next(self@) == spec_next(orig));
                                }
                            },
                            Block::EnhancedPacket(p) => {
                                let ghost pm = p@;
                                proof {
                                    lemma_step_packet(pre, fbm, fbm.block->Ok_0);
                                    assert(crate::rdr::block_data_bounds(
                                        fbm.block->Ok_0,
                                        fbm.start,
                                        fbm.total_len,
                                        pre.rdr.data,
                                    ));
                                }
                                let ts = self.packet_time(p.interface_id as usize, p.timestamp.0);
                                let iface = if (p.interface_id as usize) < self.interfaces.len() {
                                    Some(InterfaceId(sec, p.interface_id as usize))
                                } else {
                                    None
                                };
                                let dlen = p.packet_data.len();
                                let pkt = Packet {
                                    timestamp: ts,
                                    interface: iface,
                                    data: p.packet_data,
                                    data_start: start + 28,
                                    data_end: start + 28 + dlen,
                                };
                                self.current = Some(pkt);
                                proof {
                                    assert(self@ =~~= CaptureModel {
                                        current: Some(
                                            spec_emit(
                                                st1,
                                                Some(pm.interface_id),
                                                pm.timestamp.0,
                                                pm.packet_data,
                                                start + 28,
                                            ),
                                        ),
                                        ..st1
                                    });
                                }
                                return Ok(());
                            },
                            Block::SimplePacket(p) => {
                                let ghost pm = p@;
                                proof {
                                    lemma_step_packet(pre, fbm, fbm.block->Ok_0);
                                    assert(crate::rdr::block_data_bounds(
                                        fbm.block->Ok_0,
                                        fbm.start,
                                        fbm.total_len,
                                        pre.rdr.data,
                                    ));
                                }
                                let dlen = p.packet_data.len();
                                let pkt = Packet {
                                    timestamp: None,
                                    interface: None,
                                    data: p.packet_data,
                                    data_start: start + 12,
                                    data_end: start + 12 + dlen,
                                };
                                self.current = Some(pkt);
                                proof {
                                    assert(self@ =~~= CaptureModel {
                                        current: Some(
                                            spec_emit(st1, None, 0, pm.packet_data, start + 12),
                                        ),
                                        ..st1
                                    });
                                }
                                return Ok(());
                            },
                            Block::ObsoletePacket(p) => {
                                let ghost pm = p@;
                                proof {
                                    lemma_step_packet(pre, fbm, fbm.block->Ok_0);
                                    assert(crate::rdr::block_data_bounds(
                                        fbm.block->Ok_0,
                                        fbm.start,
                                        fbm.total_len,
                                        pre.rdr.data,
                                    ));
                                }
                                let ts = self.packet_time(p.interface_id as usize, p.timestamp.0);
                                let iface = if (p.interface_id as usize) < self.interfaces.len() {
                                    Some(InterfaceId(sec, p.interface_id as usize))
                                } else {
                                    None
                                };
                                let dlen = p.packet_data.len();
                                let pkt = Packet {
                                    timestamp: ts,
                                    interface: iface,
                                    data: p.packet_data,
                                    data_start: start + 28,
                                    data_end: start + 28 + dlen,
                                };
                                self.current = Some(pkt);
                                proof {
                                    assert(self@ =~~= CaptureModel {
                                        current: Some(
                                            spec_emit(
                                                st1,
                                                Some(pm.interface_id as u32),
                                                pm.timestamp.0,
                                                pm.packet_data,
                                                start + 28,
                                            ),
                                        ),
                                        ..st1
                                    });
                                }
                                return Ok(());
                            },
                            Block::NameResolution(nm) => {
                                let ghost nmm = nm@;
                                self.resolved_names.push(nm);
                                proof {
                                    lemma_step_skip(pre, fbm, fbm.block->Ok_0);
                                    assert(self@.resolved =~~= st1.resolved.push(nmm));
                                    assert(self@ =~~= CaptureModel {
                                        resolved: st1.resolved.push(nmm),
                                        ..st1
                                    });
                                    assert(spec_next(self@) == spec_next(orig));
                                }
                            },
                            Block::InterfaceStatistics(s) => {
                                proof {
                                    lemma_step_skip(pre, fbm, fbm.block->Ok_0);
                                }
                                let idx = s.interface_id as usize;
                                if idx < self.interfaces.len() {
                                    let mut entry = self.interfaces.remove(idx);
                                    entry.stats = Some(s);
                                    self.interfaces.insert(idx, entry);
                                    proof {
                                        assert(self@.ifaces =~~= st1.ifaces.update(
                                            s.interface_id as int,
                                            InterfaceModel {
                                                stats: Some(s),
                                                ..st1.ifaces[s.interface_id as int]
                                            },
                                        ));
                                        assert(self@ =~~= CaptureModel {
                                            ifaces: st1.ifaces.update(
                                                s.interface_id as int,
                                                InterfaceModel {
                                                    stats: Some(s),
                                                    ..st1.ifaces[s.interface_id as int]
                                                },
                                            ),
                                            ..st1
                                        });
                                        assert(spec_next(self@) == spec_next(orig));
                                    }
                                } else {
                                    proof {
                                        assert(self@ =~~= st1);
                                        assert(spec_next(self@) == spec_next(orig));
                                    }
                                }
                            },
                            Block::Unparsed(_t) => {
                                proof {
                                    lemma_step_skip(pre, fbm, fbm.block->Ok_0);
                                    assert(self@ =~~= st1);
                                    assert(spec_next(self@) == spec_next(orig));
                                }
                            },
                        },
                    }
                },
            }
        }
    }

    /// The timestamp for a packet naming interface `iid`, when that
    /// interface exists and its resolution is usable.
    fn packet_time(&self, iid: usize, ts: u64) -> (r: Option<WallClock>)
        requires
            self.wf(),
        ensures
            r == spec_packet_time(self@.ifaces, iid as int, ts),
    {
        if iid < self.interfaces.len() {
            let iface = &self.interfaces[iid];
            match iface.descr.units_per_sec {
                Some(u) => {
                    assert(iface_entry_wf(
                        self@.ifaces[iid as int],
                        sec_index(self@.sections),
                        iid as int,
                    ));
                    Some(wall_clock(ts, u))
                },
                None => None,
            }
        } else {
            None
        }
    }

    /// The packet the last `advance` produced, if it produced one.  The
    /// bytes are copied out of the capture, so the packet outlives it.
    pub fn get(&self) -> (r: Option<Packet>)
        ensures
            match (r, self@.current) {
                (None, None) => true,
                (Some(p), Some(pm)) => p@ == pm,
                _ => false,
            },
    {
        match &self.current {
            None => None,
            Some(p) => {
                let data = copy_range(p.data.as_slice(), 0, p.data.len());
                let out = Packet {
                    timestamp: p.timestamp,
                    interface: p.interface,
                    data,
                    data_start: p.data_start,
                    data_end: p.data_end,
                };
                proof {
                    assert(out@ =~~= p@);
                }
                Some(out)
            },
        }
    }

    /// The next packet: `advance`, then `get`.
    pub fn next(&mut self) -> (r: Option<Result<Packet, Error>>)
        requires
            old(self).wf(),
        ensures
            final(self).wf(),
            final(self)@ == spec_next(old(self)@).0,
            match (r, spec_next(old(self)@).1) {
                (None, None) => true,
                (Some(Err(e)), Some(Err(se))) => e == se,
                (Some(Ok(p)), Some(Ok(pm))) => p@ == pm,
                _ => false,
            },
    {
        proof {
            lemma_next_current(old(self)@);
        }
        match self.advance() {
            Err(e) => Some(Err(e)),
            Ok(()) => match self.get() {
                Some(p) => Some(Ok(p)),
                None => None,
            },
        }
    }

    /// The interface a packet of the current section named, if the
    /// identifier belongs to the current section and is in its table.
    pub fn lookup_interface(&self, interface_id: InterfaceId) -> (r: Option<&Interface>)
        ensures
            match r {
                Some(iface) => spec_lookup(self@, interface_id) == Some(iface@),
                None => spec_lookup(self@, interface_id) is None,
            },
    {
        let sec: usize = if self.section_count == 0 {
            0
        } else {
            self.section_count - 1
        };
        if interface_id.0 == sec && interface_id.1 < self.interfaces.len() {
            Some(&self.interfaces[interface_id.1])
        } else {
            None
        }
    }

    /// Start over at the beginning of the input; every section's state is
    /// forgotten and the first section header re-establishes it.
    pub fn rewind(&mut self)
        requires
            old(self).wf(),
        ensures
            final(self)@ == capture_initial(old(self)@.rdr.data),
            final(self).wf(),
    {
        self.inner.rewind();
        self.section_count = 0;
        self.interfaces.clear();
        self.resolved_names.clear();
        self.current = None;
        proof {
            assert(self@ =~~= capture_initial(old(self)@.rdr.data));
        }
    }
}

/// After one step, the stored packet mirrors the outcome: it is the emitted
/// packet when one was emitted, and nothing otherwise.
pub proof fn lemma_next_current(st: CaptureModel)
    requires
        rdr_wf(st.rdr),
    ensures
        spec_next(st).0.current == (match spec_next(st).1 {
            Some(Ok(p)) => Some(p),
            _ => None::<PacketModel>,
        }),
    decreases st.rdr.data.len() - st.rdr.pos,
{
    let (rdr2, item) = spec_try_next(st.rdr);
    match item {
        None => {},
        Some(Err(_)) => {},
        Some(Ok(fb)) => {
            let st1 = CaptureModel { rdr: rdr2, ..st };
            if rdr_wf(rdr2) && rdr2.pos > st.rdr.pos {
                match fb.block {
                    Err(_) => {},
                    Ok(bm) => match bm {
                        BlockModel::SectionHeader(_) => lemma_next_current(
                            CaptureModel {
                                sections: st1.sections + 1,
                                ifaces: Seq::empty(),
                                resolved: Seq::empty(),
                                ..st1
                            },
                        ),
                        BlockModel::InterfaceDescription(d) => lemma_next_current(
                            CaptureModel { ifaces: st1.ifaces.push(new_entry(st1, d)), ..st1 },
                        ),
                        BlockModel::NameResolution(nm) => lemma_next_current(
                            CaptureModel { resolved: st1.resolved.push(nm), ..st1 },
                        ),
                        BlockModel::InterfaceStatistics(s) => {
                            if (s.interface_id as int) < st1.ifaces.len() {
                                let entry = st1.ifaces[s.interface_id as int];
                                lemma_next_current(
                                    CaptureModel {
                                        ifaces: st1.ifaces.update(
                                            s.interface_id as int,
                                            InterfaceModel { stats: Some(s), ..entry },
                                        ),
                                        ..st1
                                    },
                                );
                            } else {
                                lemma_next_current(st1);
                            }
                        },
                        BlockModel::Unparsed(_) => lemma_next_current(st1),
                        _ => {},
                    },
                }
            }
        },
    }
}


/// One-step unfoldings of `spec_next`, one per outcome of the reader.  Each
/// lemma states what `spec_next` is when the reader yields that outcome;
/// `advance` leans on them so that every branch is a small proof.
proof fn lemma_step_end(st: CaptureModel)
    requires
        rdr_wf(st.rdr),
        spec_try_next(st.rdr).1 is None,
    ensures
        spec_next(st) == (
            CaptureModel { rdr: spec_try_next(st.rdr).0, current: None, ..st },
            None::<Result<PacketModel, Error>>,
        ),
{
}

proof fn lemma_step_err(st: CaptureModel, err: Error)
    requires
        rdr_wf(st.rdr),
        spec_try_next(st.rdr).1 == Some(Err::<FramedBlockModel, Error>(err)),
    ensures
        spec_next(st) == (
            CaptureModel { rdr: spec_try_next(st.rdr).0, current: None, ..st },
            Some(Err::<PacketModel, Error>(err)),
        ),
{
}

proof fn lemma_step_block_err(st: CaptureModel, fb: FramedBlockModel, be: BlockError)
    requires
        rdr_wf(st.rdr),
        spec_try_next(st.rdr).1 == Some(Ok::<FramedBlockModel, Error>(fb)),
        fb.block == Err::<BlockModel, BlockError>(be),
    ensures
        spec_next(st) == ({
            let st1 = CaptureModel { rdr: spec_try_next(st.rdr).0, ..st };
            if fb.block_type == BlockType::SectionHeader {
                (
                    CaptureModel {
                        sections: st1.sections + 1,
                        ifaces: Seq::empty(),
                        resolved: Seq::empty(),
                        current: None,
                        ..st1
                    },
                    Some(Err::<PacketModel, Error>(Error::Block(be))),
                )
            } else if fb.block_type == BlockType::InterfaceDescription {
                (
                    CaptureModel {
                        ifaces: st1.ifaces.push(new_entry(st1, idb_placeholder())),
                        current: None,
                        ..st1
                    },
                    Some(Err::<PacketModel, Error>(Error::Block(be))),
                )
            } else {
                (
                    CaptureModel { current: None, ..st1 },
                    Some(Err::<PacketModel, Error>(Error::Block(be))),
                )
            }
        }),
{
}

proof fn lemma_step_skip(st: CaptureModel, fb: FramedBlockModel, bm: BlockModel)
    requires
        rdr_wf(st.rdr),
        spec_try_next(st.rdr).1 == Some(Ok::<FramedBlockModel, Error>(fb)),
        fb.block == Ok::<BlockModel, BlockError>(bm),
    ensures
        ({
            let st1 = CaptureModel { rdr: spec_try_next(st.rdr).0, ..st };
            match bm {
                BlockModel::SectionHeader(_) => spec_next(st) == spec_next(
                    CaptureModel {
                        sections: st1.sections + 1,
                        ifaces: Seq::empty(),
                        resolved: Seq::empty(),
                        ..st1
                    },
                ),
                BlockModel::InterfaceDescription(d) => spec_next(st) == spec_next(
                    CaptureModel { ifaces: st1.ifaces.push(new_entry(st1, d)), ..st1 },
                ),
                BlockModel::NameResolution(nm) => spec_next(st) == spec_next(
                    CaptureModel { resolved: st1.resolved.push(nm), ..st1 },
                ),
                BlockModel::InterfaceStatistics(s) => spec_next(st) == (
                    if (s.interface_id as int) < st1.ifaces.len() {
                        spec_next(
                            CaptureModel {
                                ifaces: st1.ifaces.update(
                                    s.interface_id as int,
                                    InterfaceModel {
                                        stats: Some(s),
                                        ..st1.ifaces[s.interface_id as int]
                                    },
                                ),
                                ..st1
                            },
                        )
                    } else {
                        spec_next(st1)
                    }
                ),
                BlockModel::Unparsed(_) => spec_next(st) == spec_next(st1),
                _ => true,
            }
        }),
{
}

proof fn lemma_step_packet(st: CaptureModel, fb: FramedBlockModel, bm: BlockModel)
    requires
        rdr_wf(st.rdr),
        spec_try_next(st.rdr).1 == Some(Ok::<FramedBlockModel, Error>(fb)),
        fb.block == Ok::<BlockModel, BlockError>(bm),
    ensures
        ({
            let st1 = CaptureModel { rdr: spec_try_next(st.rdr).0, ..st };
            match bm {
                BlockModel::EnhancedPacket(p) => {
                    let pkt = spec_emit(
                        st1,
                        Some(p.interface_id),
                        p.timestamp.0,
                        p.packet_data,
                        fb.start + 28,
                    );
                    spec_next(st) == (
                        CaptureModel { current: Some(pkt), ..st1 },
                        Some(Ok::<PacketModel, Error>(pkt)),
                    )
                },
                BlockModel::SimplePacket(p) => {
                    let pkt = spec_emit(st1, None, 0, p.packet_data, fb.start + 12);
                    spec_next(st) == (
                        CaptureModel { current: Some(pkt), ..st1 },
                        Some(Ok::<PacketModel, Error>(pkt)),
                    )
                },
                BlockModel::ObsoletePacket(p) => {
                    let pkt = spec_emit(
                        st1,
                        Some(p.interface_id as u32),
                        p.timestamp.0,
                        p.packet_data,
                        fb.start + 28,
                    );
                    spec_next(st) == (
                        CaptureModel { current: Some(pkt), ..st1 },
                        Some(Ok::<PacketModel, Error>(pkt)),
                    )
                },
                _ => true,
            }
        }),
{
}

/// The interface description a corrupt interface description block leaves.
fn placeholder_descr() -> (r: InterfaceDescription)
    ensures
        r@ == idb_placeholder(),
{
    let r = InterfaceDescription {
        link_type: LinkType::Unknown(0),
        snap_len: None,
        if_name: String::new(),
        if_description: String::new(),
        if_ipv4_addr: Vec::new(),
        if_ipv6_addr: Vec::new(),
        if_mac_addr: None,
        if_eui_addr: None,
        if_speed: None,
        units_per_sec: None,
        if_tzone: None,
        if_filter: String::new(),
        if_os: String::new(),
        if_fcslen: None,
        if_tsoffset: None,
        if_hardware: String::new(),
        if_txspeed: None,
        if_rxspeed: None,
    };
    proof {
        assert(r@ =~~= idb_placeholder());
    }
    r
}

} // verus!
