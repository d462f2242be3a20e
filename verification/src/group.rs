//! Block-group addressing: mapping a 1-based inode number to its owning
//! block group, locating that group's descriptor, and decoding the
//! descriptor's inode-table pointer.

use vstd::prelude::*;

verus! {

use crate::bytes::{le_lohi, read_u64_lohi};
use crate::error::FsError;
use crate::superblock::SuperBlock;

/// A 1-based inode identity; inode 0 does not exist on disk.
#[derive(Clone, Copy, Debug, PartialEq, Eq, Structural)]
pub struct InodeNumber(pub u64);

/// A 0-based block-group index.
#[derive(Clone, Copy, Debug, PartialEq, Eq, Structural)]
pub struct BlockGroupNumber(pub u64);

/// The one descriptor field the traversal needs: where the group's inode
/// table begins, in filesystem blocks. The 64-bit value is split on disk
/// across a low 32-bit field and a high 32-bit field.
#[derive(Clone, Copy, Debug, PartialEq, Eq, Structural)]
pub struct BlockGroupDescriptor {
    pub inode_table_block: u64,
}

/// The group owning inode `n` under `ipg` inodes per group.
pub open spec fn spec_group_of(n: u64, ipg: u64) -> int
    recommends
        n >= 1,
        ipg > 0,
{
    (n - 1) / (ipg as int)
}

/// The index of inode `n` within its group under `ipg` inodes per group.
pub open spec fn spec_index_in_group(n: u64, ipg: u64) -> int
    recommends
        n >= 1,
        ipg > 0,
{
    (n - 1) % (ipg as int)
}

/// Inode-number geometry: for every 1-based inode number and every positive
/// group size, the owning group is `(n-1)/ipg`, the in-group index is
/// `(n-1)%ipg`, and that index always lies below the group size.
pub proof fn lemma_inode_group_geometry(n: u64, ipg: u64)
    requires
        n >= 1,
        ipg > 0,
    ensures
        spec_group_of(n, ipg) == (n - 1) / (ipg as int),
        spec_index_in_group(n, ipg) == (n - 1) % (ipg as int),
        spec_group_of(n, ipg) * ipg + spec_index_in_group(n, ipg) == n - 1,
        0 <= spec_index_in_group(n, ipg) < ipg,
{
    vstd::arithmetic::div_mod::lemma_fundamental_div_mod(n - 1, ipg as int);
    vstd::arithmetic::div_mod::lemma_mod_bound(n - 1, ipg as int);
}

impl InodeNumber {
    /// The block group that owns this inode: `(n-1) / inodes_per_group`.
    pub fn block_group_number(self, sb: &SuperBlock) -> (g: BlockGroupNumber)
        requires
            self.0 >= 1,
            sb.wf(),
        ensures
            g.0 == spec_group_of(self.0, sb.inodes_per_group),
    {
        BlockGroupNumber((self.0 - 1) / sb.inodes_per_group)
    }

    /// This inode's index within its group: `(n-1) % inodes_per_group`,
    /// always below the group size.
    pub fn index_in_group(self, sb: &SuperBlock) -> (i: u64)
        requires
            self.0 >= 1,
            sb.wf(),
        ensures
            i == spec_index_in_group(self.0, sb.inodes_per_group),
            i < sb.inodes_per_group,
    {
        proof {
            lemma_inode_group_geometry(self.0, sb.inodes_per_group);
        }
        (self.0 - 1) % sb.inodes_per_group
    }
}

/// The device byte offset of group `g`'s descriptor, when it fits in 64
/// bits: the descriptor table starts one block in (the superblock's block),
/// and descriptors are packed 64 bytes apart.
pub open spec fn spec_descriptor_offset(sb: SuperBlock, g: int) -> Result<u64, FsError> {
    if 64 * g > u64::MAX || sb.block_size + 64 * g > u64::MAX {
        Err(FsError::OffsetOverflow)
    } else {
        Ok((sb.block_size + 64 * g) as u64)
    }
}

impl BlockGroupNumber {
    /// The device byte offset of this group's descriptor:
    /// `block_size + group * 64`, or an overflow error when that address
    /// exceeds the 64-bit range.
    pub fn descriptor_offset(self, sb: &SuperBlock) -> (r: Result<u64, FsError>)
        ensures
            r == spec_descriptor_offset(*sb, self.0 as int),
    {
        let scaled = match self.0.checked_mul(64) {
            Some(v) => v,
            None => {
                return Err(FsError::OffsetOverflow);
            },
        };
        match sb.block_size.checked_add(scaled) {
            Some(v) => Ok(v),
            None => Err(FsError::OffsetOverflow),
        }
    }
}

/// The device byte offset of an inode's record, when it fits in 64 bits:
/// the group's inode table starts at `table_block * block_size`, and the
/// record sits `index * inode_size` bytes into the table.
pub open spec fn spec_inode_offset(sb: SuperBlock, table_block: u64, index: int) -> Result<
    u64,
    FsError,
> {
    if table_block * sb.block_size > u64::MAX {
        Err(FsError::OffsetOverflow)
    } else if index * sb.inode_size > u64::MAX {
        Err(FsError::OffsetOverflow)
    } else if table_block * sb.block_size + index * sb.inode_size > u64::MAX {
        Err(FsError::OffsetOverflow)
    } else {
        Ok((table_block * sb.block_size + index * sb.inode_size) as u64)
    }
}

/// The device byte offset of inode `n`'s record within the inode table that
/// `desc` locates: `inode_table_block * block_size + index_in_group *
/// inode_size`, or an overflow error when that address exceeds the 64-bit
/// range.
pub fn inode_record_offset(sb: &SuperBlock, desc: &BlockGroupDescriptor, n: InodeNumber) -> (r:
    Result<u64, FsError>)
    requires
        n.0 >= 1,
        sb.wf(),
    ensures
        r == spec_inode_offset(
            *sb,
            desc.inode_table_block,
            spec_index_in_group(n.0, sb.inodes_per_group),
        ),
{
    let table_offset = match desc.inode_table_block.checked_mul(sb.block_size) {
        Some(v) => v,
        None => {
            return Err(FsError::OffsetOverflow);
        },
    };
    let index = n.index_in_group(sb);
    let rel = match index.checked_mul(sb.inode_size) {
        Some(v) => v,
        None => {
            return Err(FsError::OffsetOverflow);
        },
    };
    match table_offset.checked_add(rel) {
        Some(v) => Ok(v),
        None => Err(FsError::OffsetOverflow),
    }
}

/// What decoding a 64-byte descriptor region yields: the inode-table block
/// pointer composed from its low field at 0x8 and high field at 0x28.
pub open spec fn spec_descriptor(s: Seq<u8>) -> Result<BlockGroupDescriptor, FsError> {
    if s.len() < 0xC {
        Err(FsError::OutOfBounds { offset: 0x8, len: 4 })
    } else if s.len() < 0x2C {
        Err(FsError::OutOfBounds { offset: 0x28, len: 4 })
    } else {
        Ok(BlockGroupDescriptor { inode_table_block: le_lohi(s, 0x8, 0x28) as u64 })
    }
}

impl BlockGroupDescriptor {
    /// Decode a block-group descriptor from `region`, the 64-byte run at the
    /// descriptor's device offset.
    pub fn decode(region: &[u8]) -> (r: Result<BlockGroupDescriptor, FsError>)
        ensures
            r == spec_descriptor(region@),
    {
        proof {
            crate::bytes::lemma_le_val_4(region@, 0x8);
            crate::bytes::lemma_le_val_4(region@, 0x28);
        }
        match read_u64_lohi(region, 0x8, 0x28) {
            Ok(v) => Ok(BlockGroupDescriptor { inode_table_block: v }),
            Err(e) => Err(e),
        }
    }
}

} // verus!
