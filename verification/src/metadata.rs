//! Plain-value snapshots of what the remote metadata calls report.
//!
//! The native stat and list calls hand back records about a path; the
//! verified logic reads only the kind, the byte size, and the block
//! size, so those are carried here as plain values.

use vstd::prelude::*;

verus! {

/// Whether a path names a file or a directory.
#[derive(Clone, Copy, Debug, PartialEq, Eq, Structural)]
pub enum PathKind {
    File,
    Directory,
}

/// What the remote stat call reports about one path.
#[derive(Clone, Copy, Debug, PartialEq, Eq, Structural)]
pub struct PathMetadata {
    /// File or directory.
    pub kind: PathKind,
    /// Byte length of the path's content.
    pub size: i64,
    /// Block size the cluster uses for this path.
    pub block_size: i64,
}

impl PathMetadata {
    /// Remote sizes are byte counts and never negative.
    pub open spec fn wf(self) -> bool {
        &&& self.size >= 0
        &&& self.block_size >= 0
    }
}

/// One record of a directory listing: the entry's path together with
/// its metadata, as the native list call reports them.
pub struct ListedEntry {
    pub name: String,
    pub size: i64,
    pub block_size: i64,
}

impl ListedEntry {
    /// Remote sizes are byte counts and never negative.
    pub open spec fn wf(self) -> bool {
        &&& self.size >= 0
        &&& self.block_size >= 0
    }
}

} // verus!
