//! Orchestration over a device byte image: loading an inode from its
//! on-disk record, looking a name up in a directory, folding a path's
//! components from the root inode, and materializing a regular file's
//! bytes. Every step recomputes its offsets from the decoded geometry; no
//! state is retained between calls.

use vstd::prelude::*;

verus! {

use crate::dir::{spec_entries, spec_first_match, dir_entries, find_entry};
use crate::error::{FileType, FsError};
use crate::extent::spec_data_range;
use crate::group::{
    spec_group_of,
    spec_index_in_group,
    spec_descriptor_offset,
    spec_inode_offset,
    spec_descriptor,
    BlockGroupDescriptor,
    InodeNumber,
};
use crate::inode::{spec_inode, spec_file_type, Inode, InodeView};
use crate::superblock::{spec_superblock, SuperBlock};

/// The filesystem root directory's fixed inode number.
pub const ROOT_INODE: u64 = 2;

/// The device byte offset where the superblock always begins.
pub const SUPERBLOCK_OFFSET: u64 = 1024;

/// The number of superblock bytes handed to the superblock decoder.
pub const SUPERBLOCK_SIZE: u64 = 1024;

/// The bounded view of `s` that starts at `base` and runs for `len` bytes,
/// both clamped to `s`'s end: reads beyond the clamped view fail with their
/// own bounds errors at decode time.
pub open spec fn spec_region(s: Seq<u8>, base: int, len: int) -> Seq<u8>
    recommends
        0 <= base,
        0 <= len,
{
    let lo = if base <= s.len() {
        base
    } else {
        s.len() as int
    };
    let hi = if lo + len <= s.len() {
        lo + len
    } else {
        s.len() as int
    };
    s.subrange(lo, hi)
}

/// The sub-slice of `dev` holding the region of `len` bytes at `base`,
/// clamped to the device's end.
pub fn region<'a>(dev: &'a [u8], base: u64, len: u64) -> (r: &'a [u8])
    ensures
        r@ == spec_region(dev@, base as int, len as int),
{
    let n: usize = dev.len();
    let lo: usize = if base <= n as u64 {
        base as usize
    } else {
        n
    };
    let avail: usize = n - lo;
    let l: usize = if len <= avail as u64 {
        len as usize
    } else {
        avail
    };
    vstd::slice::slice_subrange(dev, lo, lo + l)
}

/// What decoding the superblock of a device image yields: the superblock
/// region starts at byte 1024 regardless of the filesystem's block size.
pub open spec fn spec_read_superblock(dev: Seq<u8>) -> Result<SuperBlock, FsError> {
    spec_superblock(spec_region(dev, SUPERBLOCK_OFFSET as int, SUPERBLOCK_SIZE as int))
}

/// Decode the superblock from the device image `dev`.
pub fn read_superblock(dev: &[u8]) -> (r: Result<SuperBlock, FsError>)
    ensures
        r == spec_read_superblock(dev@),
        r matches Ok(sb) ==> sb.wf(),
{
    SuperBlock::decode(region(dev, SUPERBLOCK_OFFSET, SUPERBLOCK_SIZE))
}

/// What loading inode `n` from the device image yields: the group
/// descriptor is located and decoded fresh, then the inode record, each
/// through its own bounded region of the image.
pub open spec fn spec_load_inode(dev: Seq<u8>, sb: SuperBlock, n: u64) -> Result<
    InodeView,
    FsError,
>
    recommends
        sb.wf(),
{
    if n == 0 {
        Err(FsError::ZeroInodeNumber)
    } else {
        match spec_descriptor_offset(sb, spec_group_of(n, sb.inodes_per_group)) {
            Err(e) => Err(e),
            Ok(desc_off) => match spec_descriptor(spec_region(dev, desc_off as int, 64)) {
                Err(e) => Err(e),
                Ok(desc) => match spec_inode_offset(
                    sb,
                    desc.inode_table_block,
                    spec_index_in_group(n, sb.inodes_per_group),
                ) {
                    Err(e) => Err(e),
                    Ok(ioff) => spec_inode(spec_region(dev, ioff as int, sb.inode_size as int)),
                },
            },
        }
    }
}

/// Load and decode inode `n` from the device image `dev`: resolve its
/// group's descriptor, then index the group's inode table.
pub fn load_inode(dev: &[u8], sb: &SuperBlock, n: InodeNumber) -> (r: Result<Inode, FsError>)
    requires
        sb.wf(),
    ensures
        match r {
            Ok(ino) => spec_load_inode(dev@, *sb, n.0) == Ok::<InodeView, FsError>(ino@)
                && ino.wf(),
            Err(e) => spec_load_inode(dev@, *sb, n.0) == Err::<InodeView, FsError>(e),
        },
{
    if n.0 == 0 {
        return Err(FsError::ZeroInodeNumber);
    }
    let g = n.block_group_number(sb);
    let desc_off = match g.descriptor_offset(sb) {
        Ok(v) => v,
        Err(e) => {
            return Err(e);
        },
    };
    let desc = match BlockGroupDescriptor::decode(region(dev, desc_off, 64)) {
        Ok(d) => d,
        Err(e) => {
            return Err(e);
        },
    };
    let ioff = match crate::group::inode_record_offset(sb, &desc, n) {
        Ok(v) => v,
        Err(e) => {
            return Err(e);
        },
    };
    match Inode::decode(region(dev, ioff, sb.inode_size)) {
        Ok(ino) => Ok(ino),
        Err(e) => Err(e),
    }
}

/// What resolving an inode's data region against the device image yields:
/// the extent's absolute byte range, which must lie wholly within the
/// image, as the bytes it covers.
pub open spec fn spec_data_view(dev: Seq<u8>, sb: SuperBlock, root: Seq<u8>) -> Result<
    Seq<u8>,
    FsError,
> {
    match spec_data_range(root, sb.block_size) {
        Err(e) => Err(e),
        Ok((off, len)) => if off + len > dev.len() {
            Err(FsError::OutOfBounds { offset: off, len })
        } else {
            Ok(dev.subrange(off as int, off + len))
        },
    }
}

/// Resolve `inode`'s single extent and return the bounded view of the
/// device image restricted to the extent's byte range; all subsequent
/// directory or content reads go through this view.
pub fn data_view<'a>(dev: &'a [u8], sb: &SuperBlock, inode: &Inode) -> (r: Result<
    &'a [u8],
    FsError,
>)
    requires
        sb.wf(),
        inode.wf(),
    ensures
        match r {
            Ok(d) => spec_data_view(dev@, *sb, inode@.extent_root) == Ok::<Seq<u8>, FsError>(d@),
            Err(e) => spec_data_view(dev@, *sb, inode@.extent_root) == Err::<Seq<u8>, FsError>(e),
        },
{
    let (off, len) = match inode.data_range(sb) {
        Ok(p) => p,
        Err(e) => {
            return Err(e);
        },
    };
    let n = dev.len() as u64;
    if off > n || n - off < len {
        return Err(FsError::OutOfBounds { offset: off, len });
    }
    Ok(vstd::slice::slice_subrange(dev, off as usize, (off + len) as usize))
}

/// What looking `name` up in the directory whose extent root is `root`
/// yields: the directory's full record run is decoded, then scanned in
/// on-disk order for the first byte-for-byte name match.
pub open spec fn spec_lookup_child(
    dev: Seq<u8>,
    sb: SuperBlock,
    root: Seq<u8>,
    name: Seq<u8>,
) -> Result<Option<u64>, FsError> {
    match spec_data_view(dev, sb, root) {
        Err(e) => Err(e),
        Ok(data) => match spec_entries(data, 0) {
            Err(e) => Err(e),
            Ok(evs) => Ok(spec_first_match(evs, name)),
        },
    }
}

/// Decode `parent`'s directory entries and return the inode number of the
/// first entry (in on-disk order) whose name equals `name` exactly, or none
/// when no entry matches.
pub fn lookup_child(dev: &[u8], sb: &SuperBlock, parent: &Inode, name: &[u8]) -> (r: Result<
    Option<InodeNumber>,
    FsError,
>)
    requires
        sb.wf(),
        parent.wf(),
    ensures
        match r {
            Ok(Some(child)) => spec_lookup_child(dev@, *sb, parent@.extent_root, name@) == Ok::<
                Option<u64>,
                FsError,
            >(Some(child.0)),
            Ok(None) => spec_lookup_child(dev@, *sb, parent@.extent_root, name@) == Ok::<
                Option<u64>,
                FsError,
            >(None),
            Err(e) => spec_lookup_child(dev@, *sb, parent@.extent_root, name@) == Err::<
                Option<u64>,
                FsError,
            >(e),
        },
{
    let data = match data_view(dev, sb, parent) {
        Ok(d) => d,
        Err(e) => {
            return Err(e);
        },
    };
    let entries = match dir_entries(data) {
        Ok(es) => es,
        Err(e) => {
            return Err(e);
        },
    };
    Ok(find_entry(&entries, name))
}

/// The name sequences of a run of path components.
pub open spec fn components_view(components: Seq<Vec<u8>>) -> Seq<Seq<u8>> {
    components.map_values(|c: Vec<u8>| c@)
}

/// What folding the path components over the directory tree from inode
/// `cur` yields: at each step the current inode must decode as a
/// directory, and the next component must match one of its entries; the
/// fold fails at the first missing component, naming its index.
pub open spec fn spec_resolve_from(
    dev: Seq<u8>,
    sb: SuperBlock,
    cur: u64,
    components: Seq<Seq<u8>>,
    i: int,
) -> Result<u64, FsError>
    recommends
        sb.wf(),
        0 <= i <= components.len(),
    decreases components.len() - i,
{
    if i >= components.len() {
        Ok(cur)
    } else {
        match spec_load_inode(dev, sb, cur) {
            Err(e) => Err(e),
            Ok(ino) => match spec_file_type(ino.mode) {
                Err(e) => Err(e),
                Ok(ft) => if ft != FileType::Directory {
                    Err(FsError::NotDirectory { found: ft })
                } else {
                    match spec_lookup_child(dev, sb, ino.extent_root, components[i]) {
                        Err(e) => Err(e),
                        Ok(None) => Err(FsError::NotFound { component: i as usize }),
                        Ok(Some(child)) => spec_resolve_from(dev, sb, child, components, i + 1),
                    }
                },
            },
        }
    }
}

/// Resolve a sequence of path components starting from `root`, returning
/// the inode number the full path names. The fold is iterative, keeps no
/// state across steps, and fails at the first component that is missing
/// (naming which), at the first non-directory along the way, or at the
/// first structural fault in the image.
pub fn resolve_path(dev: &[u8], sb: &SuperBlock, root: InodeNumber, components: &Vec<Vec<u8>>) -> (r:
    Result<InodeNumber, FsError>)
    requires
        sb.wf(),
    ensures
        match r {
            Ok(ino) => spec_resolve_from(dev@, *sb, root.0, components_view(components@), 0)
                == Ok::<u64, FsError>(ino.0),
            Err(e) => spec_resolve_from(dev@, *sb, root.0, components_view(components@), 0)
                == Err::<u64, FsError>(e),
        },
{
    let ghost comps = components_view(components@);
    let mut cur = root;
    let mut i: usize = 0;
    while i < components.len()
        invariant
            sb.wf(),
            i <= components@.len(),
            comps == components_view(components@),
            comps.len() == components@.len(),
            spec_resolve_from(dev@, *sb, root.0, comps, 0) == spec_resolve_from(
                dev@,
                *sb,
                cur.0,
                comps,
                i as int,
            ),
        decreases components@.len() - i,
    {
        let ino = match load_inode(dev, sb, cur) {
            Ok(x) => x,
            Err(e) => {
                return Err(e);
            },
        };
        let ft = match ino.file_type() {
            Ok(f) => f,
            Err(e) => {
                return Err(e);
            },
        };
        if ft != FileType::Directory {
            return Err(FsError::NotDirectory { found: ft });
        }
        let component = &components[i];
        proof {
            assert(comps[i as int] == components@[i as int]@);
        }
        let child = match lookup_child(dev, sb, &ino, component.as_slice()) {
            Ok(Some(c)) => c,
            Ok(None) => {
                return Err(FsError::NotFound { component: i });
            },
            Err(e) => {
                return Err(e);
            },
        };
        cur = child;
        i = i + 1;
    }
    Ok(cur)
}

/// What materializing a regular file's content from the device image
/// yields: exactly `size` bytes from the start of the file's resolved data
/// view; the extent's block-rounded excess is discarded, and a declared
/// size larger than the view is a bounds error.
pub open spec fn spec_read_file(dev: Seq<u8>, sb: SuperBlock, ino: InodeView) -> Result<
    Seq<u8>,
    FsError,
> {
    match spec_file_type(ino.mode) {
        Err(e) => Err(e),
        Ok(ft) => if ft != FileType::Regular {
            Err(FsError::NotRegular { found: ft })
        } else {
            match spec_data_view(dev, sb, ino.extent_root) {
                Err(e) => Err(e),
                Ok(data) => if ino.size > data.len() {
                    Err(FsError::OutOfBounds { offset: 0, len: ino.size })
                } else {
                    Ok(data.subrange(0, ino.size as int))
                },
            }
        },
    }
}

/// Read a regular file's content: resolve `inode`'s single extent and copy
/// out exactly `size` bytes from the resolved view. A non-regular inode is
/// a type-mismatch error carrying the inode's decoded type.
pub fn read_file(dev: &[u8], sb: &SuperBlock, inode: &Inode) -> (r: Result<Vec<u8>, FsError>)
    requires
        sb.wf(),
        inode.wf(),
    ensures
        match r {
            Ok(content) => spec_read_file(dev@, *sb, inode@) == Ok::<Seq<u8>, FsError>(content@),
            Err(e) => spec_read_file(dev@, *sb, inode@) == Err::<Seq<u8>, FsError>(e),
        },
{
    let ft = match inode.file_type() {
        Ok(f) => f,
        Err(e) => {
            return Err(e);
        },
    };
    if ft != FileType::Regular {
        return Err(FsError::NotRegular { found: ft });
    }
    let data = match data_view(dev, sb, inode) {
        Ok(d) => d,
        Err(e) => {
            return Err(e);
        },
    };
    if inode.size > data.len() as u64 {
        return Err(FsError::OutOfBounds { offset: 0, len: inode.size });
    }
    let run = vstd::slice::slice_subrange(data, 0, inode.size as usize);
    Ok(vstd::slice::slice_to_vec(run))
}

/// What resolving a path from the root directory and reading the file it
/// names yields, end to end from the raw device image.
pub open spec fn spec_read_file_at_path(dev: Seq<u8>, components: Seq<Seq<u8>>) -> Result<
    Seq<u8>,
    FsError,
> {
    match spec_read_superblock(dev) {
        Err(e) => Err(e),
        Ok(sb) => match spec_resolve_from(dev, sb, ROOT_INODE, components, 0) {
            Err(e) => Err(e),
            Ok(n) => match spec_load_inode(dev, sb, n) {
                Err(e) => Err(e),
                Ok(ino) => spec_read_file(dev, sb, ino),
            },
        },
    }
}

/// Decode the superblock, resolve `components` from the root directory,
/// and read the regular file the path names, all from the device image
/// `dev`.
pub fn read_file_at_path(dev: &[u8], components: &Vec<Vec<u8>>) -> (r: Result<Vec<u8>, FsError>)
    ensures
        match r {
            Ok(content) => spec_read_file_at_path(dev@, components_view(components@)) == Ok::<
                Seq<u8>,
                FsError,
            >(content@),
            Err(e) => spec_read_file_at_path(dev@, components_view(components@)) == Err::<
                Seq<u8>,
                FsError,
            >(e),
        },
{
    let sb = match read_superblock(dev) {
        Ok(s) => s,
        Err(e) => {
            return Err(e);
        },
    };
    let target = match resolve_path(dev, &sb, InodeNumber(ROOT_INODE), components) {
        Ok(n) => n,
        Err(e) => {
            return Err(e);
        },
    };
    let inode = match load_inode(dev, &sb, target) {
        Ok(i) => i,
        Err(e) => {
            return Err(e);
        },
    };
    read_file(dev, &sb, &inode)
}

} // verus!
