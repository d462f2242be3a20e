use ext4_reader::error::{FileType, FsError};
use ext4_reader::group::InodeNumber;
use ext4_reader::inode::Inode;
use ext4_reader::resolve::{
    data_view, load_inode, lookup_child, read_file, read_file_at_path, read_superblock,
    resolve_path, ROOT_INODE,
};
use ext4_reader::superblock::SuperBlock;

const BLOCK: usize = 4096;
const IPG: u32 = 8192;
const INODE_SIZE: usize = 256;
const TABLE_BLOCK: u64 = 2;

fn w16(buf: &mut [u8], off: usize, v: u16) {
    buf[off..off + 2].copy_from_slice(&v.to_le_bytes());
}

fn w32(buf: &mut [u8], off: usize, v: u32) {
    buf[off..off + 4].copy_from_slice(&v.to_le_bytes());
}

fn write_extent_root(buf: &mut [u8], base: usize, length: u16, start_block: u32) {
    w16(buf, base, 0xF30A);
    w16(buf, base + 0x2, 1);
    w16(buf, base + 0x6, 0);
    w16(buf, base + 12 + 0x4, length);
    w16(buf, base + 12 + 0x6, 0);
    w32(buf, base + 12 + 0x8, start_block);
}

fn write_inode(dev: &mut [u8], number: u64, mode: u16, size: u32, length: u16, start_block: u32) {
    let table = TABLE_BLOCK as usize * BLOCK;
    let base = table + ((number - 1) % IPG as u64) as usize * INODE_SIZE;
    w16(dev, base, mode);
    w32(dev, base + 0x4, size);
    w32(dev, base + 0x6C, 0);
    write_extent_root(dev, base + 0x28, length, start_block);
}

fn write_dir_entry(dev: &mut [u8], at: usize, inode: u32, record_length: u16, name: &[u8]) {
    w32(dev, at, inode);
    w16(dev, at + 0x4, record_length);
    dev[at + 0x6] = name.len() as u8;
    dev[at + 0x8..at + 0x8 + name.len()].copy_from_slice(name);
}

/// A small synthetic image: the root directory (inode 2) holds "target"
/// (inode 12, a regular 11-byte file reading "hello world") and "sub"
/// (inode 13, an empty directory). Geometry: 4096-byte blocks, 8192 inodes
/// per group, 256-byte inode records, inode table at block 2.
fn sample_image() -> Vec<u8> {
    let mut dev = vec![0u8; 8 * BLOCK];
    // superblock at byte 1024
    w16(&mut dev, 1024 + 0x38, 0xEF53);
    w32(&mut dev, 1024 + 0x18, 2);
    w32(&mut dev, 1024 + 0x20, 32768);
    w32(&mut dev, 1024 + 0x28, IPG);
    w16(&mut dev, 1024 + 0x58, INODE_SIZE as u16);
    // group 0 descriptor at byte 4096: inode table at block 2
    w32(&mut dev, BLOCK + 0x8, TABLE_BLOCK as u32);
    w32(&mut dev, BLOCK + 0x28, 0);
    // root directory: data in block 4
    write_inode(&mut dev, 2, 0x41ED, BLOCK as u32, 1, 4);
    // "target": 11 bytes in block 5
    write_inode(&mut dev, 12, 0x81A4, 11, 1, 5);
    // "sub": an empty directory claiming zero blocks of data
    write_inode(&mut dev, 13, 0x41ED, 0, 0, 6);
    // root directory entries fill block 4 exactly
    let dir = 4 * BLOCK;
    write_dir_entry(&mut dev, dir, 12, 16, b"target");
    write_dir_entry(&mut dev, dir + 16, 13, (BLOCK - 16) as u16, b"sub");
    // file content at block 5
    dev[5 * BLOCK..5 * BLOCK + 11].copy_from_slice(b"hello world");
    dev
}

fn sample_superblock(dev: &[u8]) -> SuperBlock {
    let sb = read_superblock(dev).unwrap();
    assert_eq!(sb.block_size, BLOCK as u64);
    assert_eq!(sb.inodes_per_group, IPG as u64);
    assert_eq!(sb.inode_size, INODE_SIZE as u64);
    sb
}

#[test]
fn load_inode_finds_record_through_group_descriptor() {
    let dev = sample_image();
    let sb = sample_superblock(&dev);
    let root = load_inode(&dev, &sb, InodeNumber(2)).unwrap();
    assert_eq!(root.mode, 0x41ED);
    assert_eq!(root.file_type(), Ok(FileType::Directory));
    let target = load_inode(&dev, &sb, InodeNumber(12)).unwrap();
    assert_eq!(target.mode, 0x81A4);
    assert_eq!(target.size, 11);
    assert_eq!(target.file_type(), Ok(FileType::Regular));
}

#[test]
fn load_inode_rejects_inode_zero() {
    let dev = sample_image();
    let sb = sample_superblock(&dev);
    assert_eq!(
        load_inode(&dev, &sb, InodeNumber(0)).unwrap_err(),
        FsError::ZeroInodeNumber
    );
}

#[test]
fn load_inode_reports_overflowing_table_address() {
    let mut dev = sample_image();
    let sb = sample_superblock(&dev);
    // an inode-table block pointer so large that table * block_size overflows
    w32(&mut dev, BLOCK + 0x8, 0xFFFFFFFF);
    w32(&mut dev, BLOCK + 0x28, 0xFFFFFFFF);
    assert_eq!(
        load_inode(&dev, &sb, InodeNumber(2)).unwrap_err(),
        FsError::OffsetOverflow
    );
}

#[test]
fn lookup_child_finds_matching_entry() {
    let dev = sample_image();
    let sb = sample_superblock(&dev);
    let root = load_inode(&dev, &sb, InodeNumber(2)).unwrap();
    assert_eq!(
        lookup_child(&dev, &sb, &root, b"target").unwrap(),
        Some(InodeNumber(12))
    );
    assert_eq!(
        lookup_child(&dev, &sb, &root, b"sub").unwrap(),
        Some(InodeNumber(13))
    );
    assert_eq!(lookup_child(&dev, &sb, &root, b"missing").unwrap(), None);
}

#[test]
fn resolve_path_folds_components_in_order() {
    let dev = sample_image();
    let sb = sample_superblock(&dev);
    let path = vec![b"target".to_vec()];
    assert_eq!(
        resolve_path(&dev, &sb, InodeNumber(2), &path).unwrap(),
        InodeNumber(12)
    );
    let empty: Vec<Vec<u8>> = Vec::new();
    assert_eq!(
        resolve_path(&dev, &sb, InodeNumber(2), &empty).unwrap(),
        InodeNumber(2)
    );
}

#[test]
fn resolve_path_names_the_missing_component() {
    let dev = sample_image();
    let sb = sample_superblock(&dev);
    let path = vec![b"nothing".to_vec()];
    assert_eq!(
        resolve_path(&dev, &sb, InodeNumber(2), &path).unwrap_err(),
        FsError::NotFound { component: 0 }
    );
    let path = vec![b"sub".to_vec(), b"deeper".to_vec()];
    assert_eq!(
        resolve_path(&dev, &sb, InodeNumber(2), &path).unwrap_err(),
        FsError::NotFound { component: 1 }
    );
}

#[test]
fn resolve_path_rejects_recursing_into_a_file() {
    let dev = sample_image();
    let sb = sample_superblock(&dev);
    let path = vec![b"target".to_vec(), b"inner".to_vec()];
    assert_eq!(
        resolve_path(&dev, &sb, InodeNumber(2), &path).unwrap_err(),
        FsError::NotDirectory { found: FileType::Regular }
    );
}

#[test]
fn read_file_returns_exactly_size_bytes() {
    let dev = sample_image();
    let sb = sample_superblock(&dev);
    let target = load_inode(&dev, &sb, InodeNumber(12)).unwrap();
    assert_eq!(read_file(&dev, &sb, &target).unwrap(), b"hello world".to_vec());
}

#[test]
fn read_file_rejects_non_regular_inode() {
    let dev = sample_image();
    let sb = sample_superblock(&dev);
    let root = load_inode(&dev, &sb, InodeNumber(2)).unwrap();
    assert_eq!(
        read_file(&dev, &sb, &root).unwrap_err(),
        FsError::NotRegular { found: FileType::Directory }
    );
}

#[test]
fn extent_round_trip_truncates_to_size() {
    // a crafted extent (start 5, length 2, 4096-byte blocks) over a backing
    // buffer whose bytes [5 * 4096, 7 * 4096) are known content: resolving
    // the extent and reading `size` bytes yields that content cut to `size`
    let mut dev = vec![0u8; 8 * BLOCK];
    let mut known = Vec::new();
    for i in 0..2 * BLOCK {
        known.push((i % 251) as u8);
    }
    dev[5 * BLOCK..7 * BLOCK].copy_from_slice(&known);
    let sb = SuperBlock {
        magic: 0xEF53,
        block_size: BLOCK as u64,
        blocks_per_group: 32768,
        inodes_per_group: IPG as u64,
        inode_size: INODE_SIZE as u64,
    };
    let mut root = vec![0u8; 60];
    write_extent_root(&mut root, 0, 2, 5);
    let size: usize = 5000;
    let inode = Inode { mode: 0x81A4, size: size as u64, extent_root: root };
    let view = data_view(&dev, &sb, &inode).unwrap();
    assert_eq!(view.len(), 2 * BLOCK);
    assert_eq!(view, &known[..]);
    assert_eq!(read_file(&dev, &sb, &inode).unwrap(), known[..size].to_vec());
}

#[test]
fn read_file_rejects_size_beyond_extent() {
    let mut dev = vec![0u8; 8 * BLOCK];
    let sb = sample_superblock(&sample_image());
    let mut root = vec![0u8; 60];
    write_extent_root(&mut root, 0, 1, 5);
    dev[5 * BLOCK] = 1;
    let inode = Inode { mode: 0x81A4, size: BLOCK as u64 + 1, extent_root: root };
    assert_eq!(
        read_file(&dev, &sb, &inode).unwrap_err(),
        FsError::OutOfBounds { offset: 0, len: BLOCK as u64 + 1 }
    );
}

#[test]
fn data_view_rejects_extent_beyond_device() {
    let dev = sample_image();
    let sb = sample_superblock(&dev);
    let mut root = vec![0u8; 60];
    write_extent_root(&mut root, 0, 2, 7);
    let inode = Inode { mode: 0x81A4, size: 1, extent_root: root };
    assert_eq!(
        data_view(&dev, &sb, &inode).unwrap_err(),
        FsError::OutOfBounds { offset: 7 * BLOCK as u64, len: 2 * BLOCK as u64 }
    );
}

#[test]
fn whole_chain_resolves_and_reads_hello_world() {
    // end to end: superblock with 4096-byte blocks, 8192 inodes per group,
    // 256-byte inodes; root (inode 2) holds ("target", 12); inode 12 is a
    // regular 11-byte file whose extent holds "hello world"
    let dev = sample_image();
    let path = vec![b"target".to_vec()];
    assert_eq!(read_file_at_path(&dev, &path).unwrap(), b"hello world".to_vec());
    assert_eq!(ROOT_INODE, 2);
}

#[test]
fn whole_chain_surfaces_superblock_errors() {
    let mut dev = sample_image();
    w16(&mut dev, 1024 + 0x38, 0x1234);
    let path = vec![b"target".to_vec()];
    assert_eq!(
        read_file_at_path(&dev, &path).unwrap_err(),
        FsError::BadSuperblockMagic { found: 0x1234 }
    );
}

#[test]
fn whole_chain_surfaces_missing_path() {
    let dev = sample_image();
    let path = vec![b"absent".to_vec()];
    assert_eq!(
        read_file_at_path(&dev, &path).unwrap_err(),
        FsError::NotFound { component: 0 }
    );
}
