//! Block type codes and the dispatch from a framed body to a typed block.

use vstd::prelude::*;
use crate::epb::EnhancedPacket;
use crate::epb::EnhancedPacketModel;
use crate::epb::spec_parse_epb;
use crate::error::BlockError;
use crate::idb::InterfaceDescription;
use crate::idb::InterfaceDescriptionModel;
use crate::idb::spec_parse_idb;
use crate::isb::InterfaceStatistics;
use crate::isb::spec_parse_isb;
use crate::nrb::NameResolution;
use crate::nrb::NameResolutionModel;
use crate::nrb::spec_parse_nrb;
use crate::opb::ObsoletePacket;
use crate::opb::ObsoletePacketModel;
use crate::opb::spec_parse_opb;
use crate::shb::SectionHeader;
use crate::shb::SectionHeaderModel;
use crate::shb::spec_parse_shb;
use crate::spb::SimplePacket;
use crate::spb::SimplePacketModel;
use crate::spb::spec_parse_spb;
use crate::util::Endianness;
use crate::util::Timestamp;

verus! {

/// The kind a 32-bit block type code denotes.  Kinds beyond the seven the
/// decoder understands are recognised so they can be framed and skipped.
#[derive(Clone, Copy, PartialEq, Eq, Debug, Structural)]
pub enum BlockType {
    SectionHeader,
    InterfaceDescription,
    ObsoletePacket,
    SimplePacket,
    NameResolution,
    InterfaceStatistics,
    EnhancedPacket,
    IRIGTimestamp,
    Arinc429,
    SystemdJournalExport,
    DecryptionSecrets,
    Hone,
    Sysdig,
    Custom,
    Unknown(u32),
}

impl BlockType {
    /// The kind for a 32-bit block type code.
    pub open spec fn spec_from_u32(code: u32) -> BlockType {
        if code == 0x0A0D_0D0A {
            BlockType::SectionHeader
        } else if code == 0x0000_0001 {
            BlockType::InterfaceDescription
        } else if code == 0x0000_0002 {
            BlockType::ObsoletePacket
        } else if code == 0x0000_0003 {
            BlockType::SimplePacket
        } else if code == 0x0000_0004 {
            BlockType::NameResolution
        } else if code == 0x0000_0005 {
            BlockType::InterfaceStatistics
        } else if code == 0x0000_0006 {
            BlockType::EnhancedPacket
        } else if code == 0x0000_0007 {
            BlockType::IRIGTimestamp
        } else if code == 0x0000_0008 {
            BlockType::Arinc429
        } else if code == 0x0000_0009 {
            BlockType::SystemdJournalExport
        } else if code == 0x0000_000A {
            BlockType::DecryptionSecrets
        } else if code == 0x0000_0101 || code == 0x4000_0102 {
            BlockType::Hone
        } else if 0x0000_0201 <= code && code <= 0x0000_0213 {
            BlockType::Sysdig
        } else if code == 0x0000_0BAD || code == 0x4000_0BAD {
            BlockType::Custom
        } else {
            BlockType::Unknown(code)
        }
    }

    /// Classify a 32-bit block type code.
    pub fn from_u32(code: u32) -> (r: BlockType)
        ensures
            r == Self::spec_from_u32(code),
    {
        if code == 0x0A0D_0D0A {
            BlockType::SectionHeader
        } else if code == 0x0000_0001 {
            BlockType::InterfaceDescription
        } else if code == 0x0000_0002 {
            BlockType::ObsoletePacket
        } else if code == 0x0000_0003 {
            BlockType::SimplePacket
        } else if code == 0x0000_0004 {
            BlockType::NameResolution
        } else if code == 0x0000_0005 {
            BlockType::InterfaceStatistics
        } else if code == 0x0000_0006 {
            BlockType::EnhancedPacket
        } else if code == 0x0000_0007 {
            BlockType::IRIGTimestamp
        } else if code == 0x0000_0008 {
            BlockType::Arinc429
        } else if code == 0x0000_0009 {
            BlockType::SystemdJournalExport
        } else if code == 0x0000_000A {
            BlockType::DecryptionSecrets
        } else if code == 0x0000_0101 || code == 0x4000_0102 {
            BlockType::Hone
        } else if 0x0000_0201 <= code && code <= 0x0000_0213 {
            BlockType::Sysdig
        } else if code == 0x0000_0BAD || code == 0x4000_0BAD {
            BlockType::Custom
        } else {
            BlockType::Unknown(code)
        }
    }
}

/// A typed pcap-ng block.
#[derive(Clone, PartialEq, Eq, Debug)]
pub enum Block {
    SectionHeader(SectionHeader),
    InterfaceDescription(InterfaceDescription),
    ObsoletePacket(ObsoletePacket),
    SimplePacket(SimplePacket),
    NameResolution(NameResolution),
    InterfaceStatistics(InterfaceStatistics),
    EnhancedPacket(EnhancedPacket),
    /// A recognised-but-ignored or unknown kind, framed and skipped.
    Unparsed(BlockType),
}

/// The mathematical shape of a typed block.
#[verifier::ext_equal]
pub enum BlockModel {
    SectionHeader(SectionHeaderModel),
    InterfaceDescription(InterfaceDescriptionModel),
    ObsoletePacket(ObsoletePacketModel),
    SimplePacket(SimplePacketModel),
    NameResolution(NameResolutionModel),
    InterfaceStatistics(InterfaceStatistics),
    EnhancedPacket(EnhancedPacketModel),
    Unparsed(BlockType),
}

impl View for Block {
    type V = BlockModel;

    open spec fn view(&self) -> BlockModel {
        match self {
            Block::SectionHeader(x) => BlockModel::SectionHeader(x@),
            Block::InterfaceDescription(x) => BlockModel::InterfaceDescription(x@),
            Block::ObsoletePacket(x) => BlockModel::ObsoletePacket(x@),
            Block::SimplePacket(x) => BlockModel::SimplePacket(x@),
            Block::NameResolution(x) => BlockModel::NameResolution(x@),
            Block::InterfaceStatistics(x) => BlockModel::InterfaceStatistics(*x),
            Block::EnhancedPacket(x) => BlockModel::EnhancedPacket(x@),
            Block::Unparsed(t) => BlockModel::Unparsed(*t),
        }
    }
}

/// A decoded block leaves only well-formed resolutions behind: when it is an
/// interface description, a usable resolution is at least one unit per
/// second.
pub open spec fn block_units_ok(bm: BlockModel) -> bool {
    match bm {
        BlockModel::InterfaceDescription(d) => crate::idb::units_wf(d.units_per_sec),
        _ => true,
    }
}

/// Whatever kind a body decodes to, the decoded block leaves only
/// well-formed resolutions.
pub proof fn lemma_parse_block_units(bt: BlockType, body: Seq<u8>, e: Endianness)
    ensures
        spec_parse_block(bt, body, e) matches Ok(bm) ==> block_units_ok(bm),
{
    crate::idb::lemma_parse_idb_units(body, e);
}

/// What decoding a framed body of kind `bt` yields.
pub open spec fn spec_parse_block(bt: BlockType, body: Seq<u8>, e: Endianness) -> Result<
    BlockModel,
    BlockError,
> {
    match bt {
        BlockType::SectionHeader => match spec_parse_shb(body, e) {
            Ok(m) => Ok(BlockModel::SectionHeader(m)),
            Err(er) => Err(er),
        },
        BlockType::InterfaceDescription => match spec_parse_idb(body, e) {
            Ok(m) => Ok(BlockModel::InterfaceDescription(m)),
            Err(er) => Err(er),
        },
        BlockType::ObsoletePacket => match spec_parse_opb(body, e) {
            Ok(m) => Ok(BlockModel::ObsoletePacket(m)),
            Err(er) => Err(er),
        },
        BlockType::SimplePacket => match spec_parse_spb(body, e) {
            Ok(m) => Ok(BlockModel::SimplePacket(m)),
            Err(er) => Err(er),
        },
        BlockType::NameResolution => Ok(BlockModel::NameResolution(spec_parse_nrb(body))),
        BlockType::InterfaceStatistics => match spec_parse_isb(body, e) {
            Ok(m) => Ok(BlockModel::InterfaceStatistics(m)),
            Err(er) => Err(er),
        },
        BlockType::EnhancedPacket => match spec_parse_epb(body, e) {
            Ok(m) => Ok(BlockModel::EnhancedPacket(m)),
            Err(er) => Err(er),
        },
        _ => Ok(BlockModel::Unparsed(bt)),
    }
}

impl Block {
    /// Decode a framed block body of kind `block_type` in byte order `e`.
    pub fn parse(block_type: BlockType, body: &[u8], e: Endianness) -> (r: Result<
        Block,
        BlockError,
    >)
        ensures
            match r {
                Ok(b) => spec_parse_block(block_type, body@, e) == Ok::<BlockModel, BlockError>(b@)
                    && block_units_ok(b@),
                Err(er) => spec_parse_block(block_type, body@, e) == Err::<BlockModel, BlockError>(
                    er,
                ),
            },
    {
        match block_type {
            BlockType::SectionHeader => match SectionHeader::parse(body, e) {
                Ok(m) => Ok(Block::SectionHeader(m)),
                Err(er) => Err(er),
            },
            BlockType::InterfaceDescription => match InterfaceDescription::parse(body, e) {
                Ok(m) => Ok(Block::InterfaceDescription(m)),
                Err(er) => Err(er),
            },
            BlockType::ObsoletePacket => match ObsoletePacket::parse(body, e) {
                Ok(m) => Ok(Block::ObsoletePacket(m)),
                Err(er) => Err(er),
            },
            BlockType::SimplePacket => match SimplePacket::parse(body, e) {
                Ok(m) => Ok(Block::SimplePacket(m)),
                Err(er) => Err(er),
            },
            BlockType::NameResolution => match NameResolution::parse(body, e) {
                Ok(m) => Ok(Block::NameResolution(m)),
                Err(er) => Err(er),
            },
            BlockType::InterfaceStatistics => match InterfaceStatistics::parse(body, e) {
                Ok(m) => Ok(Block::InterfaceStatistics(m)),
                Err(er) => Err(er),
            },
            BlockType::EnhancedPacket => match EnhancedPacket::parse(body, e) {
                Ok(m) => Ok(Block::EnhancedPacket(m)),
                Err(er) => Err(er),
            },
            _ => Ok(Block::Unparsed(block_type)),
        }
    }

    /// The packet content of this block, when it is a packet block: the
    /// timestamp and interface index — absent for a simple packet — and the
    /// captured bytes.
    pub fn into_pkt(self) -> (r: Option<(Option<(Timestamp, u32)>, Vec<u8>)>)
        ensures
            match self@ {
                BlockModel::EnhancedPacket(p) => r matches Some((meta, data)) && meta == Some(
                    (p.timestamp, p.interface_id),
                ) && data@ == p.packet_data,
                BlockModel::SimplePacket(p) => r matches Some((meta, data)) && meta is None
                    && data@ == p.packet_data,
                BlockModel::ObsoletePacket(p) => r matches Some((meta, data)) && meta == Some(
                    (p.timestamp, p.interface_id as u32),
                ) && data@ == p.packet_data,
                _ => r is None,
            },
    {
        match self {
            Block::EnhancedPacket(p) => Some(
                (Some((p.timestamp, p.interface_id)), p.packet_data),
            ),
            Block::SimplePacket(p) => Some((None, p.packet_data)),
            Block::ObsoletePacket(p) => Some(
                (Some((p.timestamp, p.interface_id as u32)), p.packet_data),
            ),
            _ => None,
        }
    }
}

} // verus!
