//! Inode decoding: mode, size and the embedded 60-byte extent-tree root,
//! and the mapping from the mode's type bits to a closed set of file types.

use vstd::prelude::*;

verus! {

use crate::bytes::{le_val, le_lohi, read_u16, read_u64_lohi, read_bytes};
use crate::error::{FileType, FsError};

/// One decoded on-disk inode record. The extent root is a fixed-size
/// snapshot of the record's bytes 0x28..0x64, independent of the backing
/// device after the decode.
#[derive(Debug)]
pub struct Inode {
    /// Low 12 bits are permissions; the top nibble-aligned bits encode the
    /// file type.
    pub mode: u16,
    /// File size in bytes, split on disk across a low 32-bit field and a
    /// high 32-bit field.
    pub size: u64,
    /// The 60 raw bytes holding the extent-tree root.
    pub extent_root: Vec<u8>,
}

/// The mathematical content of an inode record.
pub struct InodeView {
    pub mode: u16,
    pub size: u64,
    pub extent_root: Seq<u8>,
}

impl View for Inode {
    type V = InodeView;

    open spec fn view(&self) -> InodeView {
        InodeView { mode: self.mode, size: self.size, extent_root: self.extent_root@ }
    }
}

impl Inode {
    /// A decoded inode always carries the full 60-byte extent root.
    pub open spec fn wf(self) -> bool {
        self.extent_root@.len() == 60
    }
}

/// What decoding an inode region yields: mode at 0x0, size composed from
/// 0x4 (low) and 0x6C (high), and the 60-byte extent root at 0x28. The
/// reads happen in that order, so a short region fails on the first field
/// it cannot hold.
pub open spec fn spec_inode(s: Seq<u8>) -> Result<InodeView, FsError> {
    if s.len() < 0x2 {
        Err(FsError::OutOfBounds { offset: 0x0, len: 2 })
    } else if s.len() < 0x8 {
        Err(FsError::OutOfBounds { offset: 0x4, len: 4 })
    } else if s.len() < 0x70 {
        Err(FsError::OutOfBounds { offset: 0x6C, len: 4 })
    } else {
        Ok(
            InodeView {
                mode: le_val(s, 0x0, 2) as u16,
                size: le_lohi(s, 0x4, 0x6C) as u64,
                extent_root: s.subrange(0x28, 0x64),
            },
        )
    }
}

impl Inode {
    /// Decode an inode from `region`, the `inode_size`-byte run at the
    /// inode's offset within its group's inode table.
    pub fn decode(region: &[u8]) -> (r: Result<Inode, FsError>)
        ensures
            match r {
                Ok(ino) => spec_inode(region@) == Ok::<InodeView, FsError>(ino@) && ino.wf(),
                Err(e) => spec_inode(region@) == Err::<InodeView, FsError>(e),
            },
    {
        let mode = match read_u16(region, 0x0) {
            Ok(v) => v,
            Err(e) => {
                return Err(e);
            },
        };
        let size = match read_u64_lohi(region, 0x4, 0x6C) {
            Ok(v) => v,
            Err(e) => {
                return Err(e);
            },
        };
        let extent_root = match read_bytes(region, 0x28, 60) {
            Ok(v) => v,
            Err(e) => {
                return Err(e);
            },
        };
        Ok(Inode { mode, size, extent_root })
    }
}

/// The mode's nibble-aligned type bits: the top four bits of the 16-bit
/// mode, kept in place.
pub open spec fn spec_type_code(mode: u16) -> u16 {
    ((mode / 0x1000) * 0x1000) as u16
}

/// The file type a mode encodes, or a structural error naming the
/// unrecognized type code.
pub open spec fn spec_file_type(mode: u16) -> Result<FileType, FsError> {
    let code = spec_type_code(mode);
    if code == 0x1000 {
        Ok(FileType::Fifo)
    } else if code == 0x2000 {
        Ok(FileType::CharacterDevice)
    } else if code == 0x4000 {
        Ok(FileType::Directory)
    } else if code == 0x6000 {
        Ok(FileType::BlockDevice)
    } else if code == 0x8000 {
        Ok(FileType::Regular)
    } else if code == 0xA000 {
        Ok(FileType::SymbolicLink)
    } else if code == 0xC000 {
        Ok(FileType::Socket)
    } else {
        Err(FsError::UnknownFileType { code })
    }
}

impl Inode {
    /// The file type encoded in this inode's mode; an unrecognized type
    /// code is a structural error, not a crash.
    pub fn file_type(&self) -> (r: Result<FileType, FsError>)
        ensures
            r == spec_file_type(self.mode),
    {
        let code: u16 = (self.mode / 0x1000) * 0x1000;
        if code == 0x1000 {
            Ok(FileType::Fifo)
        } else if code == 0x2000 {
            Ok(FileType::CharacterDevice)
        } else if code == 0x4000 {
            Ok(FileType::Directory)
        } else if code == 0x6000 {
            Ok(FileType::BlockDevice)
        } else if code == 0x8000 {
            Ok(FileType::Regular)
        } else if code == 0xA000 {
            Ok(FileType::SymbolicLink)
        } else if code == 0xC000 {
            Ok(FileType::Socket)
        } else {
            Err(FsError::UnknownFileType { code })
        }
    }
}

} // verus!
