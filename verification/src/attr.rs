//! Inode attributes and the two fixed shapes they take: the root directory
//! and the synthetic target file.

use vstd::prelude::*;

verus! {

/// The inode id that the protocol reserves for the root directory.
pub const ROOT_INO: u64 = 1;

/// Size of the target file, in bytes: one page.
pub const TARGET_SIZE: u64 = 4096;

/// What kind of object an inode is.
#[derive(Clone, Copy, Debug, PartialEq, Eq, Structural)]
pub enum FileKind {
    Directory,
    RegularFile,
}

/// A point in time, as seconds and nanoseconds since the Unix epoch.
#[derive(Clone, Copy, Debug, PartialEq, Eq, Structural)]
pub struct Timestamp {
    pub secs: u64,
    pub nanos: u32,
}

/// The attributes of one filesystem object.
#[derive(Clone, Copy, Debug, PartialEq, Eq, Structural)]
pub struct InodeAttr {
    pub ino: u64,
    pub size: u64,
    pub blocks: u64,
    pub atime: Timestamp,
    pub mtime: Timestamp,
    pub ctime: Timestamp,
    pub crtime: Timestamp,
    pub kind: FileKind,
    pub perm: u16,
    pub nlink: u32,
    pub uid: u32,
    pub gid: u32,
    pub rdev: u32,
    pub flags: u32,
    pub blksize: u32,
}

/// The root directory's attributes, all four timestamps set to `now`.
pub open spec fn root_attr(now: Timestamp) -> InodeAttr {
    InodeAttr {
        ino: ROOT_INO,
        size: 0,
        blocks: 0,
        atime: now,
        mtime: now,
        ctime: now,
        crtime: now,
        kind: FileKind::Directory,
        perm: 0o755,
        nlink: 2,
        uid: 0,
        gid: 0,
        rdev: 0,
        flags: 0,
        blksize: 512,
    }
}

/// The attributes of a target file with id `ino`: a regular file of one
/// page, all four timestamps set to `now`.
pub open spec fn target_attr(ino: u64, now: Timestamp) -> InodeAttr {
    InodeAttr {
        ino,
        size: TARGET_SIZE,
        blocks: 1,
        atime: now,
        mtime: now,
        ctime: now,
        crtime: now,
        kind: FileKind::RegularFile,
        perm: 0o644,
        nlink: 1,
        uid: 0,
        gid: 0,
        rdev: 0,
        flags: 0,
        blksize: 4096,
    }
}

impl InodeAttr {
    /// Attributes of the root directory created at `now`.
    pub fn root(now: Timestamp) -> (attr: InodeAttr)
        ensures
            attr == root_attr(now),
    {
        InodeAttr {
            ino: ROOT_INO,
            size: 0,
            blocks: 0,
            atime: now,
            mtime: now,
            ctime: now,
            crtime: now,
            kind: FileKind::Directory,
            perm: 0o755,
            nlink: 2,
            uid: 0,
            gid: 0,
            rdev: 0,
            flags: 0,
            blksize: 512,
        }
    }

    /// Attributes of the target file with id `ino`, created at `now`.
    pub fn target(ino: u64, now: Timestamp) -> (attr: InodeAttr)
        ensures
            attr == target_attr(ino, now),
    {
        InodeAttr {
            ino,
            size: TARGET_SIZE,
            blocks: 1,
            atime: now,
            mtime: now,
            ctime: now,
            crtime: now,
            kind: FileKind::RegularFile,
            perm: 0o644,
            nlink: 1,
            uid: 0,
            gid: 0,
            rdev: 0,
            flags: 0,
            blksize: 4096,
        }
    }
}

} // verus!
