//! Attribute snapshots of the read-only layer.

use vstd::prelude::*;

verus! {

/// Mask of the file-type bits of a mode.
pub const S_IFMT: u32 = 0o170000;

/// File-type bits of a directory.
pub const S_IFDIR: u32 = 0o040000;

/// File-type bits of a regular file.
pub const S_IFREG: u32 = 0o100000;

/// File-type bits of a symbolic link.
pub const S_IFLNK: u32 = 0o120000;

/// Seconds for which the kernel may cache attributes of the read-only layer.
pub const ATTR_TTL_SECS: u64 = 2;

/// What an inode is.
#[derive(Copy, Clone, Debug, PartialEq, Eq, Structural)]
pub enum InodeKind {
    File,
    Directory,
    Symlink,
}

/// The attributes of one inode at one moment. Made for each call, never kept.
#[derive(Copy, Clone, Debug, PartialEq, Eq, Structural)]
pub struct AttributeSnapshot {
    pub inode: u64,
    pub mode: u32,
    pub uid: u32,
    pub gid: u32,
    pub size: u64,
    pub atime_secs: u64,
    pub mtime_secs: u64,
    pub ctime_secs: u64,
}

/// The mode that the read-only layer shows for an inode of a kind: the
/// kind's file-type bits, with `rwxr-xr-x` for directories and files and
/// `rwxrwxrwx` for symbolic links.
pub open spec fn mode_of(kind: InodeKind) -> u32 {
    match kind {
        InodeKind::Directory => 0o040755,
        InodeKind::File => 0o100755,
        InodeKind::Symlink => 0o120777,
    }
}

/// The kind that a mode's file-type bits name, if it is one of the three.
pub open spec fn kind_of_mode(mode: u32) -> Option<InodeKind> {
    if mode & S_IFMT == S_IFDIR {
        Some(InodeKind::Directory)
    } else if mode & S_IFMT == S_IFREG {
        Some(InodeKind::File)
    } else if mode & S_IFMT == S_IFLNK {
        Some(InodeKind::Symlink)
    } else {
        None
    }
}

/// The attributes that the read-only layer synthesizes: owner and group are
/// root, the timestamps are the epoch.
pub open spec fn synthesized(inode: u64, kind: InodeKind, size: u64) -> AttributeSnapshot {
    AttributeSnapshot {
        inode,
        mode: mode_of(kind),
        uid: 0,
        gid: 0,
        size,
        atime_secs: 0,
        mtime_secs: 0,
        ctime_secs: 0,
    }
}

impl InodeKind {
    /// The mode that the read-only layer shows for this kind.
    pub fn mode(self) -> (mode: u32)
        ensures
            mode == mode_of(self),
            kind_of_mode(mode) == Some(self),
            mode & S_IFMT != 0,
    {
        assert(0o040755u32 & 0o170000u32 == 0o040000u32) by (bit_vector);
        assert(0o100755u32 & 0o170000u32 == 0o100000u32) by (bit_vector);
        assert(0o120777u32 & 0o170000u32 == 0o120000u32) by (bit_vector);
        match self {
            InodeKind::Directory => 0o040755,
            InodeKind::File => 0o100755,
            InodeKind::Symlink => 0o120777,
        }
    }
}

impl AttributeSnapshot {
    /// Synthesizes the attributes of an inode of the read-only layer.
    pub fn synthesize(inode: u64, kind: InodeKind, size: u64) -> (attrs: AttributeSnapshot)
        ensures
            attrs == synthesized(inode, kind, size),
            kind_of_mode(attrs.mode) == Some(kind),
    {
        AttributeSnapshot {
            inode,
            mode: kind.mode(),
            uid: 0,
            gid: 0,
            size,
            atime_secs: 0,
            mtime_secs: 0,
            ctime_secs: 0,
        }
    }

    /// The kind that the mode's file-type bits name, if it is a file, a
    /// directory or a symbolic link.
    pub fn kind(&self) -> (kind: Option<InodeKind>)
        ensures
            kind == kind_of_mode(self.mode),
    {
        let bits = self.mode & S_IFMT;
        if bits == S_IFDIR {
            Some(InodeKind::Directory)
        } else if bits == S_IFREG {
            Some(InodeKind::File)
        } else if bits == S_IFLNK {
            Some(InodeKind::Symlink)
        } else {
            None
        }
    }

    /// Whether the snapshot is of a regular file.
    pub fn is_regular_file(&self) -> (b: bool)
        ensures
            b == (kind_of_mode(self.mode) == Some(InodeKind::File)),
    {
        self.mode & S_IFMT == S_IFREG
    }
}

} // verus!
