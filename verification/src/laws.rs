//! Properties of the capture engine that hold on every input, stated as
//! proof functions over the engine's specification.

use vstd::prelude::*;
use crate::capture::CaptureModel;
use crate::capture::capture_wf;
use crate::capture::iface_entry_wf;
use crate::capture::new_entry;
use crate::capture::sec_index;
use crate::capture::spec_lookup;
use crate::capture::spec_next;
use crate::error::Error;
use crate::iface::InterfaceModel;
use crate::idb::InterfaceDescriptionModel;
use crate::idb::idb_base;
use crate::idb::idb_apply;
use crate::idb::idb_fold;
use crate::idb::spec_parse_idb;
use crate::idb::spec_tsresol_units;
use crate::opts::spec_options;
use crate::packet::PacketModel;
use crate::rdr::block_data_bounds;
use crate::block::block_units_ok;
use crate::rdr::lemma_try_next_facts;
use crate::rdr::rdr_wf;
use crate::rdr::spec_try_next;
use crate::block::BlockModel;
use crate::util::Endianness;

verus! {

/// The workhorse induction over one walk of the reader: well-formedness is
/// preserved, the input never changes, a framing error leaves the reader
/// dead, and an emitted packet names a resolvable interface and carries
/// exactly the input bytes its offsets point at.
proof fn lemma_next_props(st: CaptureModel)
    requires
        capture_wf(st),
    ensures
        capture_wf(spec_next(st).0),
        spec_next(st).0.rdr.data == st.rdr.data,
        match spec_next(st).1 {
            Some(Err(e)) => (e matches Error::Frame(_) || e == Error::DidntStartWithSHB)
                ==> spec_next(st).0.rdr.dead,
            Some(Ok(p)) => {
                &&& (p.interface matches Some(id) ==> spec_lookup(spec_next(st).0, id) is Some
                    && spec_lookup(spec_next(st).0, id)->Some_0.id == id)
                &&& 0 <= p.data_start <= p.data_end <= st.rdr.data.len()
                &&& p.data == st.rdr.data.subrange(p.data_start, p.data_end)
            },
            None => true,
        },
    decreases st.rdr.data.len() - st.rdr.pos,
{
    lemma_try_next_facts(st.rdr);
    let (rdr2, item) = spec_try_next(st.rdr);
    match item {
        None => {},
        Some(Err(_)) => {},
        Some(Ok(fb)) => {
            let st1 = CaptureModel { rdr: rdr2, ..st };
            assert(capture_wf(st1));
            match fb.block {
                Err(_) => {
                    if fb.block_type == crate::block::BlockType::SectionHeader {
                        let st2 = CaptureModel {
                            sections: st1.sections + 1,
                            ifaces: Seq::empty(),
                            resolved: Seq::empty(),
                            current: None,
                            ..st1
                        };
                        assert(capture_wf(st2));
                    } else if fb.block_type == crate::block::BlockType::InterfaceDescription {
                        let entry = new_entry(st1, crate::capture::idb_placeholder());
                        let st2 = CaptureModel {
                            ifaces: st1.ifaces.push(entry),
                            current: None,
                            ..st1
                        };
                        assert forall|i: int| 0 <= i < st2.ifaces.len() implies iface_entry_wf(
                            #[trigger] st2.ifaces[i],
                            sec_index(st2.sections),
                            i,
                        ) by {
                            if i < st1.ifaces.len() {
                                assert(iface_entry_wf(st1.ifaces[i], sec_index(st1.sections), i));
                            }
                        }
                        assert(capture_wf(st2));
                    }
                },
                Ok(bm) => match bm {
                    BlockModel::SectionHeader(_) => {
                        let st2 = CaptureModel {
                            sections: st1.sections + 1,
                            ifaces: Seq::empty(),
                            resolved: Seq::empty(),
                            ..st1
                        };
                        assert(capture_wf(st2));
                        lemma_next_props(st2);
                    },
                    BlockModel::InterfaceDescription(d) => {
                        let entry = new_entry(st1, d);
                        let st2 = CaptureModel { ifaces: st1.ifaces.push(entry), ..st1 };
                        assert(block_units_ok(bm));
                        assert forall|i: int| 0 <= i < st2.ifaces.len() implies iface_entry_wf(
                            #[trigger] st2.ifaces[i],
                            sec_index(st2.sections),
                            i,
                        ) by {
                            if i < st1.ifaces.len() {
                                assert(iface_entry_wf(st1.ifaces[i], sec_index(st1.sections), i));
                            }
                        }
                        assert(capture_wf(st2));
                        lemma_next_props(st2);
                    },
                    BlockModel::EnhancedPacket(p) => {
                        assert(block_data_bounds(bm, fb.start, fb.total_len, st.rdr.data));
                        if (p.interface_id as int) < st1.ifaces.len() {
                            assert(iface_entry_wf(
                                st1.ifaces[p.interface_id as int],
                                sec_index(st1.sections),
                                p.interface_id as int,
                            ));
                        }
                    },
                    BlockModel::SimplePacket(_) => {
                        assert(block_data_bounds(bm, fb.start, fb.total_len, st.rdr.data));
                    },
                    BlockModel::ObsoletePacket(p) => {
                        assert(block_data_bounds(bm, fb.start, fb.total_len, st.rdr.data));
                        if (p.interface_id as int) < st1.ifaces.len() {
                            assert(iface_entry_wf(
                                st1.ifaces[p.interface_id as int],
                                sec_index(st1.sections),
                                p.interface_id as int,
                            ));
                        }
                    },
                    BlockModel::NameResolution(nm) => {
                        let st2 = CaptureModel { resolved: st1.resolved.push(nm), ..st1 };
                        assert(capture_wf(st2));
                        lemma_next_props(st2);
                    },
                    BlockModel::InterfaceStatistics(s) => {
                        if (s.interface_id as int) < st1.ifaces.len() {
                            let entry = st1.ifaces[s.interface_id as int];
                            let st2 = CaptureModel {
                                ifaces: st1.ifaces.update(
                                    s.interface_id as int,
                                    InterfaceModel { stats: Some(s), ..entry },
                                ),
                                ..st1
                            };
                            assert forall|i: int|
                                0 <= i < st2.ifaces.len() implies iface_entry_wf(
                                #[trigger] st2.ifaces[i],
                                sec_index(st2.sections),
                                i,
                            ) by {
                                assert(iface_entry_wf(st1.ifaces[i], sec_index(st1.sections), i));
                            }
                            assert(capture_wf(st2));
                            lemma_next_props(st2);
                        } else {
                            lemma_next_props(st1);
                        }
                    },
                    BlockModel::Unparsed(_) => {
                        lemma_next_props(st1);
                    },
                },
            }
        },
    }
}

/// Law: end-of-stream is stable.  A walk over a dead reader yields nothing
/// and changes nothing but the stored packet, so once a walk is at
/// end-of-stream, every later walk is too.
pub proof fn lemma_end_of_stream_is_stable(st: CaptureModel)
    requires
        rdr_wf(st.rdr),
        st.rdr.dead,
    ensures
        spec_next(st) == (
            CaptureModel { current: None, ..st },
            None::<Result<PacketModel, Error>>,
        ),
{
    assert(CaptureModel { rdr: spec_try_next(st.rdr).0, current: None, ..st } =~~= CaptureModel {
        current: None,
        ..st
    });
}

/// Law: a framing error is terminal.  When a walk reports a framing error
/// (or that the stream did not begin with a section header), every later
/// walk yields end-of-stream and leaves the state unchanged.
pub proof fn lemma_framing_error_is_terminal(st: CaptureModel)
    requires
        capture_wf(st),
        match spec_next(st).1 {
            Some(Err(e)) => e matches Error::Frame(_) || e == Error::DidntStartWithSHB,
            _ => false,
        },
    ensures
        spec_next(st).0.rdr.dead,
        spec_next(spec_next(st).0) == (
            CaptureModel { current: None, ..spec_next(st).0 },
            None::<Result<PacketModel, Error>>,
        ),
{
    lemma_next_props(st);
    lemma_end_of_stream_is_stable(spec_next(st).0);
}

/// Law: an emitted packet's interface reference resolves.  When a walk
/// emits a packet that names interface identity `id`, looking `id` up in
/// the state at that emission yields an interface whose identity is `id`.
pub proof fn lemma_emitted_interface_resolves(st: CaptureModel)
    requires
        capture_wf(st),
    ensures
        match spec_next(st).1 {
            Some(Ok(p)) => p.interface matches Some(id) ==> spec_lookup(spec_next(st).0, id)
                is Some && spec_lookup(spec_next(st).0, id)->Some_0.id == id,
            _ => true,
        },
{
    lemma_next_props(st);
}

/// Law: round trip.  The byte range an emitted packet points at, re-read
/// from the input, is exactly the payload the packet carries.
pub proof fn lemma_packet_data_round_trip(st: CaptureModel)
    requires
        capture_wf(st),
    ensures
        match spec_next(st).1 {
            Some(Ok(p)) => 0 <= p.data_start <= p.data_end <= st.rdr.data.len() && p.data
                == st.rdr.data.subrange(p.data_start, p.data_end),
            _ => true,
        },
{
    lemma_next_props(st);
}

/// Law: walking preserves well-formedness and never touches the input.
pub proof fn lemma_next_preserves_wf(st: CaptureModel)
    requires
        capture_wf(st),
    ensures
        capture_wf(spec_next(st).0),
        spec_next(st).0.rdr.data == st.rdr.data,
{
    lemma_next_props(st);
}

/// The last well-formed timestamp-resolution option of a record list: code
/// 9 with a one-byte value.
pub open spec fn last_tsresol(opts: Seq<(u16, Seq<u8>)>) -> Option<u8>
    decreases opts.len(),
{
    if opts.len() == 0 {
        None
    } else {
        match last_tsresol(opts.skip(1)) {
            Some(b) => Some(b),
            None => if opts[0].0 == 9 && opts[0].1.len() == 1 {
                Some(opts[0].1[0])
            } else {
                None
            },
        }
    }
}

/// Folding an option list resolves the unit count to the last well-formed
/// resolution option, or keeps what it started with.
proof fn lemma_fold_units(m: InterfaceDescriptionModel, opts: Seq<(u16, Seq<u8>)>, e: Endianness)
    ensures
        idb_fold(m, opts, e).units_per_sec == (match last_tsresol(opts) {
            None => m.units_per_sec,
            Some(b) => spec_tsresol_units(b),
        }),
    decreases opts.len(),
{
    if opts.len() == 0 {
    } else {
        lemma_fold_units(idb_apply(m, opts[0].0, opts[0].1, e), opts.skip(1), e);
    }
}

/// Law: the unit count of a decoded interface description is one million
/// when no resolution option is present, and otherwise base to the power of
/// the exponent that the last resolution option encodes — unusable when
/// that exceeds a 32-bit unsigned.
pub proof fn lemma_units_per_sec(body: Seq<u8>, e: Endianness)
    ensures
        spec_parse_idb(body, e) matches Ok(m) ==> m.units_per_sec == (match last_tsresol(
            spec_options(body.skip(8), e),
        ) {
            None => Some(1_000_000u32),
            Some(b) => spec_tsresol_units(b),
        }),
{
    if body.len() >= 8 {
        lemma_fold_units(idb_base(body, e), spec_options(body.skip(8), e), e);
    }
}

} // verus!
