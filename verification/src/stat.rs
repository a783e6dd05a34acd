//! The file-status record handed across the stat syscalls. Filling it
//! belongs to the external filesystem; this core only defines its shape
//! and its empty value.

use vstd::prelude::*;

verus! {

/// A file-status record, zeroed until the filesystem fills it.
#[derive(Debug, Clone, Copy, PartialEq, Eq, Structural)]
pub struct Stat {
    /// Containing device id.
    pub dev: u64,
    /// Inode number.
    pub ino: u64,
    /// File type and permission bits.
    pub mode: u32,
    /// Hard-link count.
    pub nlink: u32,
    /// Owner's user id.
    pub uid: u32,
    /// Owner's group id.
    pub gid: u32,
    /// Device id, for device files.
    pub rdev: u64,
    /// Size in bytes.
    pub size: u64,
    /// Preferred I/O block size.
    pub blksize: u64,
    /// Number of allocated blocks.
    pub blocks: u64,
}

impl Stat {
    /// An all-zero record, ready for the filesystem to fill.
    pub fn new() -> (r: Stat)
        ensures
            r == (Stat {
                dev: 0,
                ino: 0,
                mode: 0,
                nlink: 0,
                uid: 0,
                gid: 0,
                rdev: 0,
                size: 0,
                blksize: 0,
                blocks: 0,
            }),
    {
        Stat {
            dev: 0,
            ino: 0,
            mode: 0,
            nlink: 0,
            uid: 0,
            gid: 0,
            rdev: 0,
            size: 0,
            blksize: 0,
            blocks: 0,
        }
    }
}

impl Default for Stat {
    /// Same all-zero record as [`Stat::new`].
    fn default() -> (r: Self)
        ensures
            r == (Stat {
                dev: 0,
                ino: 0,
                mode: 0,
                nlink: 0,
                uid: 0,
                gid: 0,
                rdev: 0,
                size: 0,
                blksize: 0,
                blocks: 0,
            }),
    {
        Stat::new()
    }
}

} // verus!
