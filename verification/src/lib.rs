//! Client-side file-handle abstraction over a remote, block-oriented
//! distributed filesystem.
//!
//! The library holds the verified logic of the client: the handle
//! lifecycle as an explicit state machine (closed, connected, open),
//! flag-driven open-or-create resolution, positional read planning with
//! cursor arithmetic, idempotent resource release, directory-listing
//! conversion, and block-locality host collection. The native client
//! calls themselves (connect, open, pread, write, flush, close, delete,
//! list, get-hosts) are performed by an unverified driver that feeds
//! their outcomes back into the state machine as plain values.

pub mod errors;
pub mod flags;
pub mod metadata;
pub mod hdfs_fs;
pub mod hdfs_reader;

pub use errors::FsError;
pub use flags::{O_RDONLY, O_WRONLY, O_CREAT};
pub use metadata::{PathKind, PathMetadata, ListedEntry};
pub use hdfs_fs::{HdfsFile, ReadPlan, ReleaseActions};
pub use hdfs_reader::HdfsReader;
