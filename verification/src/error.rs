use vstd::prelude::*;

verus! {

/// The closed set of file types an inode's mode field can encode.
#[derive(Clone, Copy, Debug, PartialEq, Eq, Structural)]
pub enum FileType {
    Fifo,
    CharacterDevice,
    Directory,
    BlockDevice,
    Regular,
    SymbolicLink,
    Socket,
}

/// Every way a decode or a path resolution can fail.
///
/// `OutOfBounds` is an I/O-range failure: a read ran past the addressable
/// extent of its backing region. `OffsetOverflow` means a computed byte
/// address does not fit the 64-bit address space, so it lies beyond any
/// backend. `NotFound` is the one expected outcome: a path component with no
/// matching directory entry. The remaining variants are structural errors in
/// the on-disk data, each carrying the offending value for diagnosis.
#[derive(Clone, Copy, Debug, PartialEq, Eq, Structural)]
#[allow(inconsistent_fields)]
pub enum FsError {
    /// A read of `len` bytes at `offset` ran past the end of its region.
    OutOfBounds { offset: u64, len: u64 },
    /// A computed byte address exceeded the 64-bit addressable range.
    OffsetOverflow,
    /// The superblock magic field held `found` instead of 0xEF53.
    BadSuperblockMagic { found: u16 },
    /// The decoded geometry is unusable: the block-size exponent would
    /// overflow a 64-bit size, or there are zero inodes per group.
    BadGeometry { log2_block_size: u32, inodes_per_group: u32 },
    /// An inode number of zero was asked for; inode numbers are 1-based.
    ZeroInodeNumber,
    /// The extent header magic field held `found` instead of 0xF30A.
    BadExtentMagic { found: u16 },
    /// The extent tree is not a single leaf: only depth 0 with exactly one
    /// entry is supported.
    UnsupportedExtentLayout { entries: u16, depth: u16 },
    /// The inode mode's type bits held a code outside the known set.
    UnknownFileType { code: u16 },
    /// The directory entry at `offset` declares a record length that is zero
    /// or would advance the cursor past the region's total size.
    BadDirEntryLength { offset: u64, record_length: u16 },
    /// A directory lookup was asked of an inode of this non-directory type.
    NotDirectory { found: FileType },
    /// File content was asked of an inode of this non-regular type.
    NotRegular { found: FileType },
    /// Path resolution failed: the component at this index matched no entry.
    NotFound { component: usize },
}

} // verus!
