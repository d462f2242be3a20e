//! Structural decoding of an ext4-family on-disk layout from a raw byte image:
//! superblock geometry, block-group descriptors, inode records, single-leaf
//! extent trees, directory entries, and path resolution, with every decode
//! bounds-checked and every failure reported as a typed error.

pub mod bytes;
pub mod dir;
pub mod error;
pub mod extent;
pub mod group;
pub mod inode;
pub mod resolve;
pub mod superblock;
