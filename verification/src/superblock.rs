//! Superblock decoding: filesystem geometry extracted from the 1024-byte
//! region that starts at byte 1024 of the device, with the magic validated
//! before any of the geometry is trusted.

use vstd::prelude::*;

verus! {

use crate::bytes::{le_val, read_u16, read_u32, lemma_le_val_2, lemma_le_val_4};
use crate::error::FsError;

/// Filesystem geometry, immutable once decoded.
#[derive(Clone, Copy, Debug, PartialEq, Eq, Structural)]
pub struct SuperBlock {
    /// Always 0xEF53 in a successfully decoded superblock.
    pub magic: u16,
    /// Bytes per filesystem block: 1024 shifted left by the on-disk exponent.
    pub block_size: u64,
    pub blocks_per_group: u64,
    pub inodes_per_group: u64,
    pub inode_size: u64,
}

impl SuperBlock {
    /// Geometry every later offset computation may rely on: a validated
    /// magic, a positive block size and a positive inode-per-group count.
    pub open spec fn wf(self) -> bool {
        &&& self.magic == 0xEF53
        &&& self.block_size >= 1024
        &&& self.inodes_per_group > 0
    }
}

/// What decoding a superblock region yields: the magic field (offset 0x38) is
/// checked first, then the remaining fields are read, then the geometry is
/// checked to be usable. A region too short for a field fails with the
/// failing read's bounds error; the reads happen in the order magic,
/// block-size exponent, blocks per group, inodes per group, inode size, so
/// the only short-region errors are on the magic and on the inode size.
pub open spec fn spec_superblock(s: Seq<u8>) -> Result<SuperBlock, FsError> {
    if s.len() < 0x3A {
        Err(FsError::OutOfBounds { offset: 0x38, len: 2 })
    } else if le_val(s, 0x38, 2) != 0xEF53 {
        Err(FsError::BadSuperblockMagic { found: le_val(s, 0x38, 2) as u16 })
    } else if s.len() < 0x5A {
        Err(FsError::OutOfBounds { offset: 0x58, len: 2 })
    } else {
        let log2_block_size = le_val(s, 0x18, 4) as u32;
        let inodes_per_group = le_val(s, 0x28, 4) as u32;
        if log2_block_size > 53 || inodes_per_group == 0 {
            Err(FsError::BadGeometry { log2_block_size, inodes_per_group })
        } else {
            Ok(
                SuperBlock {
                    magic: 0xEF53,
                    block_size: (1u64 << ((10 + log2_block_size) as u64)) as u64,
                    blocks_per_group: le_val(s, 0x20, 4) as u64,
                    inodes_per_group: inodes_per_group as u64,
                    inode_size: le_val(s, 0x58, 2) as u64,
                },
            )
        }
    }
}

impl SuperBlock {
    /// Decode the superblock from `region`, the run of device bytes starting
    /// at device offset 1024. Succeeds exactly on regions whose magic field
    /// holds 0xEF53 and whose geometry is usable, and then yields
    /// well-formed geometry.
    pub fn decode(region: &[u8]) -> (r: Result<SuperBlock, FsError>)
        ensures
            r == spec_superblock(region@),
            r matches Ok(sb) ==> sb.wf(),
    {
        let magic = match read_u16(region, 0x38) {
            Ok(v) => v,
            Err(e) => {
                return Err(e);
            },
        };
        proof {
            lemma_le_val_2(region@, 0x38);
        }
        if magic != 0xEF53 {
            return Err(FsError::BadSuperblockMagic { found: magic });
        }
        let log2_block_size = match read_u32(region, 0x18) {
            Ok(v) => v,
            Err(e) => {
                return Err(e);
            },
        };
        let blocks_per_group = match read_u32(region, 0x20) {
            Ok(v) => v,
            Err(e) => {
                return Err(e);
            },
        };
        let inodes_per_group = match read_u32(region, 0x28) {
            Ok(v) => v,
            Err(e) => {
                return Err(e);
            },
        };
        let inode_size = match read_u16(region, 0x58) {
            Ok(v) => v,
            Err(e) => {
                return Err(e);
            },
        };
        proof {
            lemma_le_val_4(region@, 0x18);
            lemma_le_val_4(region@, 0x20);
            lemma_le_val_4(region@, 0x28);
            lemma_le_val_2(region@, 0x58);
        }
        if log2_block_size > 53 || inodes_per_group == 0 {
            return Err(FsError::BadGeometry { log2_block_size, inodes_per_group });
        }
        let shift: u64 = (10 + log2_block_size) as u64;
        assert(1024 <= (1u64 << shift) <= u64::MAX) by (bit_vector)
            requires
                10 <= shift <= 63,
        ;
        Ok(
            SuperBlock {
                magic,
                block_size: 1u64 << shift,
                blocks_per_group: blocks_per_group as u64,
                inodes_per_group: inodes_per_group as u64,
                inode_size: inode_size as u64,
            },
        )
    }
}

/// A superblock decode never yields geometry without having seen the magic:
/// whenever decoding succeeds, the on-disk magic field held 0xEF53.
pub proof fn lemma_superblock_magic_checked(s: Seq<u8>)
    ensures
        spec_superblock(s) matches Ok(sb) ==> le_val(s, 0x38, 2) == 0xEF53 && sb.magic == 0xEF53,
{
}

} // verus!
