//! Metadata records: plain-value snapshots of what one file or
//! filesystem query reported, and the constructors that turn a query
//! outcome into a uniform success/failure record.
use vstd::prelude::*;
use crate::mode::{S_IFLNK, S_IFMT};

verus! {

/// The fields of one file metadata snapshot, as plain values.
#[derive(Clone, Copy, Debug, PartialEq, Eq, Structural)]
pub struct RawStat {
    /// Device holding the file.
    pub st_dev: u64,
    /// Inode number.
    pub st_ino: u64,
    /// Number of hard links.
    pub st_nlink: u64,
    /// Packed type and permission bits.
    pub st_mode: u32,
    /// Owner user id.
    pub st_uid: u32,
    /// Owner group id.
    pub st_gid: u32,
    /// Total size in bytes.
    pub st_size: i64,
    /// Preferred I/O block size.
    pub st_blksize: i64,
    /// Number of allocated blocks.
    pub st_blocks: i64,
    /// Last access time, seconds since the epoch.
    pub st_atime: i64,
    /// Nanosecond part of the access time.
    pub st_atime_nsec: i64,
    /// Last data modification time, seconds since the epoch.
    pub st_mtime: i64,
    /// Nanosecond part of the modification time.
    pub st_mtime_nsec: i64,
    /// Last status change time, seconds since the epoch.
    pub st_ctime: i64,
    /// Nanosecond part of the status change time.
    pub st_ctime_nsec: i64,
}

/// The fields of one filesystem metadata snapshot, as plain values.
#[derive(Clone, Copy, Debug, PartialEq, Eq, Structural)]
pub struct RawStatfs {
    /// Filesystem type code.
    pub f_type: i64,
    /// Block size for transfers.
    pub f_bsize: i64,
    /// Total data blocks.
    pub f_blocks: u64,
    /// Free blocks.
    pub f_bfree: u64,
    /// Free blocks available to unprivileged users.
    pub f_bavail: u64,
    /// Total file nodes.
    pub f_files: u64,
    /// Free file nodes.
    pub f_ffree: u64,
    /// Filesystem identifier, zero where the platform hides it.
    pub f_fsid: u64,
    /// Maximum length of file names.
    pub f_namelen: i64,
    /// Fundamental block size.
    pub f_frsize: i64,
}

/// What one query produced: file metadata, filesystem metadata, or
/// the text of the error that the query failed with.
pub enum Outcome {
    /// A file query succeeded.
    FileInfo(RawStat),
    /// A filesystem query succeeded.
    FilesystemInfo(RawStatfs),
    /// The query failed; the payload is the reported error text.
    Failure(String),
}

/// The record of querying one path: the path itself, the outcome, and
/// the decoded symlink information of a non-dereferencing query.
pub struct FileStat {
    /// The path the query was made for.
    pub filename: String,
    /// What the query produced.
    pub outcome: Outcome,
    /// True when a non-dereferencing query found a symbolic link.
    pub blinker: bool,
    /// The link's referent; meaningful only when `blinker` is set.
    pub oriname: String,
}

impl FileStat {
    /// The record invariant: a symlink mark only stands on a
    /// successful file query whose mode word marks a link, a failed
    /// query never carries one, and the referent text is empty unless
    /// the mark is set.
    pub open spec fn wf(&self) -> bool {
        &&& self.blinker ==> (self.outcome matches Outcome::FileInfo(st) && st.st_mode & S_IFMT
            == S_IFLNK)
        &&& !self.blinker ==> self.oriname@ == Seq::<char>::empty()
    }
}

/// A file metadata snapshot with every field zero.
pub fn get_new_stat() -> (r: RawStat)
    ensures
        r == (RawStat {
            st_dev: 0,
            st_ino: 0,
            st_nlink: 0,
            st_mode: 0,
            st_uid: 0,
            st_gid: 0,
            st_size: 0,
            st_blksize: 0,
            st_blocks: 0,
            st_atime: 0,
            st_atime_nsec: 0,
            st_mtime: 0,
            st_mtime_nsec: 0,
            st_ctime: 0,
            st_ctime_nsec: 0,
        }),
{
    RawStat {
        st_dev: 0,
        st_ino: 0,
        st_nlink: 0,
        st_mode: 0,
        st_uid: 0,
        st_gid: 0,
        st_size: 0,
        st_blksize: 0,
        st_blocks: 0,
        st_atime: 0,
        st_atime_nsec: 0,
        st_mtime: 0,
        st_mtime_nsec: 0,
        st_ctime: 0,
        st_ctime_nsec: 0,
    }
}

/// A filesystem metadata snapshot with every field zero.
pub fn get_new_statfs() -> (r: RawStatfs)
    ensures
        r == (RawStatfs {
            f_type: 0,
            f_bsize: 0,
            f_blocks: 0,
            f_bfree: 0,
            f_bavail: 0,
            f_files: 0,
            f_ffree: 0,
            f_fsid: 0,
            f_namelen: 0,
            f_frsize: 0,
        }),
{
    RawStatfs {
        f_type: 0,
        f_bsize: 0,
        f_blocks: 0,
        f_bfree: 0,
        f_bavail: 0,
        f_files: 0,
        f_ffree: 0,
        f_fsid: 0,
        f_namelen: 0,
        f_frsize: 0,
    }
}

/// The referent text to display for a symbolic link: the resolved
/// target where reading it succeeded, and the link's own path as the
/// fallback where the target was absent, truncated or unreadable.
pub fn get_link_oriname(linkname: String, target: Option<String>) -> (r: String)
    ensures
        r@ == (match target {
            Some(t) => t@,
            None => linkname@,
        }),
{
    match target {
        Some(t) => t,
        None => linkname,
    }
}

/// Builds the record of a non-dereferencing file query from the
/// query's outcome. On success the mode word is classified: a
/// symbolic link sets the mark and carries the referent text (with
/// the fallback rule of `get_link_oriname`); any other type leaves
/// both clear. On failure the record is dead and carries the error
/// text.
pub fn get_file_stat(filename: String, result: Result<RawStat, String>, target: Option<String>)
    -> (r: FileStat)
    ensures
        r.wf(),
        r.filename@ == filename@,
        result matches Err(e) ==> r.outcome matches Outcome::Failure(msg) && msg@ == e@
            && !r.blinker,
        result matches Ok(st) ==> {
            &&& r.outcome matches Outcome::FileInfo(s) && s == st
            &&& r.blinker == (st.st_mode & S_IFMT == S_IFLNK)
            &&& r.blinker ==> r.oriname@ == (match target {
                Some(t) => t@,
                None => filename@,
            })
        },
{
    match result {
        Err(e) => FileStat {
            filename,
            outcome: Outcome::Failure(e),
            blinker: false,
            oriname: String::new(),
        },
        Ok(st) => {
            let blnk = crate::mode::is_symbolic_link(st.st_mode);
            let oriname = if blnk {
                get_link_oriname(filename.clone(), target)
            } else {
                String::new()
            };
            FileStat { filename, outcome: Outcome::FileInfo(st), blinker: blnk, oriname }
        },
    }
}

/// Builds the record of a dereferencing file query from the query's
/// outcome. The symlink mark is never set: the query followed every
/// link before reporting.
pub fn get_file_stat_link(filename: String, result: Result<RawStat, String>) -> (r: FileStat)
    ensures
        r.wf(),
        r.filename@ == filename@,
        !r.blinker,
        result matches Err(e) ==> r.outcome matches Outcome::Failure(msg) && msg@ == e@,
        result matches Ok(st) ==> r.outcome matches Outcome::FileInfo(s) && s == st,
{
    match result {
        Err(e) => FileStat {
            filename,
            outcome: Outcome::Failure(e),
            blinker: false,
            oriname: String::new(),
        },
        Ok(st) => FileStat {
            filename,
            outcome: Outcome::FileInfo(st),
            blinker: false,
            oriname: String::new(),
        },
    }
}

/// Builds the record of a filesystem query from the query's outcome.
/// No symlink semantics apply.
pub fn get_file_statfs(filename: String, result: Result<RawStatfs, String>) -> (r: FileStat)
    ensures
        r.wf(),
        r.filename@ == filename@,
        !r.blinker,
        result matches Err(e) ==> r.outcome matches Outcome::Failure(msg) && msg@ == e@,
        result matches Ok(st) ==> r.outcome matches Outcome::FilesystemInfo(s) && s == st,
{
    match result {
        Err(e) => FileStat {
            filename,
            outcome: Outcome::Failure(e),
            blinker: false,
            oriname: String::new(),
        },
        Ok(st) => FileStat {
            filename,
            outcome: Outcome::FilesystemInfo(st),
            blinker: false,
            oriname: String::new(),
        },
    }
}

} // verus!
