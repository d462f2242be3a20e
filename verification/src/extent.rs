//! Extent-tree interpretation: the inode's 60-byte extent root read as a
//! header plus a single leaf extent, yielding the absolute byte range that
//! holds the inode's data. Only a depth-0 tree with exactly one entry is
//! supported; anything else is an unsupported-layout error.

use vstd::prelude::*;

verus! {

use crate::bytes::{le_val, read_u16, read_u32, lemma_le_val_2, lemma_le_val_4};
use crate::error::FsError;
use crate::inode::Inode;
use crate::superblock::SuperBlock;

/// The 12-byte header that begins an extent-tree node.
#[derive(Clone, Copy, Debug, PartialEq, Eq, Structural)]
pub struct ExtentHeader {
    /// Always 0xF30A in a successfully decoded header.
    pub magic: u16,
    pub entries: u16,
    /// 0 means the node's entries are leaf extents.
    pub depth: u16,
}

/// One leaf extent: a contiguous run of `length` filesystem blocks starting
/// at block `start_block`, whose 48-bit address is split on disk across a
/// high 16-bit field and a low 32-bit field.
#[derive(Clone, Copy, Debug, PartialEq, Eq, Structural)]
pub struct Extent {
    pub length: u16,
    pub start_block: u64,
}

/// What decoding a 12-byte extent-header region yields: the magic at 0x0 is
/// checked against 0xF30A before the entry count at 0x2 and the depth at
/// 0x6 are read.
pub open spec fn spec_extent_header(s: Seq<u8>) -> Result<ExtentHeader, FsError> {
    if s.len() < 0x2 {
        Err(FsError::OutOfBounds { offset: 0x0, len: 2 })
    } else if le_val(s, 0x0, 2) != 0xF30A {
        Err(FsError::BadExtentMagic { found: le_val(s, 0x0, 2) as u16 })
    } else if s.len() < 0x4 {
        Err(FsError::OutOfBounds { offset: 0x2, len: 2 })
    } else if s.len() < 0x8 {
        Err(FsError::OutOfBounds { offset: 0x6, len: 2 })
    } else {
        Ok(
            ExtentHeader {
                magic: 0xF30A,
                entries: le_val(s, 0x2, 2) as u16,
                depth: le_val(s, 0x6, 2) as u16,
            },
        )
    }
}

impl ExtentHeader {
    /// Decode an extent header from `region`, the first 12 bytes of an
    /// extent-tree node.
    pub fn decode(region: &[u8]) -> (r: Result<ExtentHeader, FsError>)
        ensures
            r == spec_extent_header(region@),
    {
        let magic = match read_u16(region, 0x0) {
            Ok(v) => v,
            Err(e) => {
                return Err(e);
            },
        };
        proof {
            lemma_le_val_2(region@, 0x0);
        }
        if magic != 0xF30A {
            return Err(FsError::BadExtentMagic { found: magic });
        }
        let entries = match read_u16(region, 0x2) {
            Ok(v) => v,
            Err(e) => {
                return Err(e);
            },
        };
        let depth = match read_u16(region, 0x6) {
            Ok(v) => v,
            Err(e) => {
                return Err(e);
            },
        };
        proof {
            lemma_le_val_2(region@, 0x2);
            lemma_le_val_2(region@, 0x6);
        }
        Ok(ExtentHeader { magic, entries, depth })
    }
}

/// What decoding a 12-byte leaf-extent region yields: the block count at
/// 0x4, then the start block composed from its high 16-bit field at 0x6 and
/// low 32-bit field at 0x8.
pub open spec fn spec_extent(s: Seq<u8>) -> Result<Extent, FsError> {
    if s.len() < 0x6 {
        Err(FsError::OutOfBounds { offset: 0x4, len: 2 })
    } else if s.len() < 0x8 {
        Err(FsError::OutOfBounds { offset: 0x6, len: 2 })
    } else if s.len() < 0xC {
        Err(FsError::OutOfBounds { offset: 0x8, len: 4 })
    } else {
        Ok(
            Extent {
                length: le_val(s, 0x4, 2) as u16,
                start_block: (0x1_0000_0000 * le_val(s, 0x6, 2) + le_val(s, 0x8, 4)) as u64,
            },
        )
    }
}

impl Extent {
    /// Decode a leaf extent from `region`, the 12 bytes that follow an
    /// extent-tree node's header.
    pub fn decode(region: &[u8]) -> (r: Result<Extent, FsError>)
        ensures
            r == spec_extent(region@),
    {
        let length = match read_u16(region, 0x4) {
            Ok(v) => v,
            Err(e) => {
                return Err(e);
            },
        };
        let hi = match read_u16(region, 0x6) {
            Ok(v) => v,
            Err(e) => {
                return Err(e);
            },
        };
        let lo = match read_u32(region, 0x8) {
            Ok(v) => v,
            Err(e) => {
                return Err(e);
            },
        };
        proof {
            lemma_le_val_2(region@, 0x4);
            lemma_le_val_2(region@, 0x6);
            lemma_le_val_4(region@, 0x8);
        }
        Ok(Extent { length, start_block: 0x1_0000_0000 * (hi as u64) + (lo as u64) })
    }
}

/// What resolving a 60-byte extent root against a block size yields: the
/// absolute device byte range `(offset, length)` of the data, once the
/// header's magic is validated and the tree is the supported single-leaf
/// shape; a range that does not fit the 64-bit address space is an overflow
/// error.
pub open spec fn spec_data_range(root: Seq<u8>, block_size: u64) -> Result<(u64, u64), FsError> {
    if root.len() < 60 {
        Err(FsError::OutOfBounds { offset: 0, len: 60 })
    } else {
        match spec_extent_header(root.subrange(0, 12)) {
            Err(e) => Err(e),
            Ok(h) => if h.depth != 0 || h.entries != 1 {
                Err(FsError::UnsupportedExtentLayout { entries: h.entries, depth: h.depth })
            } else {
                match spec_extent(root.subrange(12, 24)) {
                    Err(e) => Err(e),
                    Ok(ext) => if ext.start_block * block_size > u64::MAX {
                        Err(FsError::OffsetOverflow)
                    } else if (ext.length as int) * block_size > u64::MAX {
                        Err(FsError::OffsetOverflow)
                    } else {
                        Ok(
                            (
                                (ext.start_block * block_size) as u64,
                                ((ext.length as int) * block_size) as u64,
                            ),
                        )
                    },
                }
            },
        }
    }
}

impl Inode {
    /// Interpret this inode's extent root and return the absolute byte range
    /// `(offset, length)` on the device that holds the inode's data.
    pub fn data_range(&self, sb: &SuperBlock) -> (r: Result<(u64, u64), FsError>)
        requires
            self.wf(),
        ensures
            r == spec_data_range(self@.extent_root, sb.block_size),
    {
        let root = self.extent_root.as_slice();
        let header_region = vstd::slice::slice_subrange(root, 0, 12);
        let header = match ExtentHeader::decode(header_region) {
            Ok(h) => h,
            Err(e) => {
                return Err(e);
            },
        };
        if header.depth != 0 || header.entries != 1 {
            return Err(
                FsError::UnsupportedExtentLayout { entries: header.entries, depth: header.depth },
            );
        }
        let extent_region = vstd::slice::slice_subrange(root, 12, 24);
        let ext = match Extent::decode(extent_region) {
            Ok(x) => x,
            Err(e) => {
                return Err(e);
            },
        };
        let offset = match ext.start_block.checked_mul(sb.block_size) {
            Some(v) => v,
            None => {
                return Err(FsError::OffsetOverflow);
            },
        };
        let len = match (ext.length as u64).checked_mul(sb.block_size) {
            Some(v) => v,
            None => {
                return Err(FsError::OffsetOverflow);
            },
        };
        Ok((offset, len))
    }
}

/// Extent resolution never silently resolves an unsupported tree: whenever
/// it yields a byte range, the header magic was 0xF30A, the depth was 0 and
/// the entry count was exactly 1.
pub proof fn lemma_extent_layout_checked(root: Seq<u8>, block_size: u64)
    ensures
        spec_data_range(root, block_size) is Ok ==> (spec_extent_header(root.subrange(0, 12))
            matches Ok(h) && h.magic == 0xF30A && h.depth == 0 && h.entries == 1),
{
}

} // verus!
