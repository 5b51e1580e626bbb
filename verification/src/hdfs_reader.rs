//! A minimal read-only handle over the remote filesystem.
//!
//! `HdfsReader` carries only what sequential reading needs: the
//! coordinator, the path, the cursor and the size bound. Its open flow
//! is shorter than the file handle's — the driver connects, stats the
//! path and opens it read-only, with a failed stat surfaced as
//! `NotFound` — and its reads are planned with the same positional
//! clamp-and-advance arithmetic.

use vstd::prelude::*;
use vstd::string::StringExecFns;
use crate::errors::FsError;
use crate::metadata::PathMetadata;
use crate::hdfs_fs::{ReadPlan, ReleaseActions};

verus! {

/// A client handle that only reads one remote file sequentially.
pub struct HdfsReader {
    /// Coordinator endpoint; `"default"` means the environment-configured one.
    pub name_node: String,
    /// Logical path of the file.
    pub path: String,
    /// Read cursor; always within `[0, size]`.
    pub read_pos: i64,
    /// Remaining-size bound for reads: the cached file length, or, for a
    /// split reader, the split's end offset.
    pub size: i64,
    /// True when the reader was made by `from_split`: its `size` is the
    /// split's end offset and is kept across the stat of the open flow.
    pub split: bool,
    /// Token for the native session, when connected.
    pub fs: Option<u64>,
    /// Token for the native file handle, when open.
    pub opened_file: Option<u64>,
}

impl HdfsReader {
    /// A native file handle is only ever held under a live session, and
    /// the read cursor stays within the readable range.
    pub open spec fn wf(self) -> bool {
        &&& 0 <= self.read_pos
        &&& self.read_pos <= self.size
        &&& self.opened_file is Some ==> self.fs is Some
    }

    /// Whether the reader holds a live session.
    pub open spec fn is_connected(self) -> bool {
        self.fs is Some
    }

    /// Whether the reader holds an open native file.
    pub open spec fn is_open(self) -> bool {
        self.opened_file is Some
    }

    /// The reader with both native resources released.
    pub open spec fn spec_released(self) -> HdfsReader {
        HdfsReader { fs: None, opened_file: None, ..self }
    }

    /// The closed shell every constructor starts from.
    pub open spec fn spec_shell(
        name_node: Seq<char>,
        path: Seq<char>,
        read_pos: i64,
        size: i64,
        split: bool,
        h: HdfsReader,
    ) -> bool {
        &&& h.name_node@ == name_node
        &&& h.path@ == path
        &&& h.read_pos == read_pos
        &&& h.size == size
        &&& h.split == split
        &&& h.fs is None
        &&& h.opened_file is None
    }

    /// Begins a reader on an explicitly named coordinator. The driver
    /// completes the open flow.
    pub fn init_with_name_node(name_node: String, path: String) -> (h: HdfsReader)
        ensures
            Self::spec_shell(name_node@, path@, 0, 0, false, h),
            h.wf(),
    {
        HdfsReader {
            name_node,
            path,
            read_pos: 0,
            size: 0,
            split: false,
            fs: None,
            opened_file: None,
        }
    }

    /// Begins a reader on the default coordinator. The driver completes
    /// the open flow.
    pub fn init(path: String) -> (h: HdfsReader)
        ensures
            Self::spec_shell("default"@, path@, 0, 0, false, h),
            h.wf(),
    {
        HdfsReader {
            name_node: String::from_str("default"),
            path,
            read_pos: 0,
            size: 0,
            split: false,
            fs: None,
            opened_file: None,
        }
    }

    /// Begins a reader over the byte range `[start, end)` of a shared
    /// file: the cursor is seeded at `start` and the size bound at
    /// `end`, so reads stay inside the split. The driver completes the
    /// open flow.
    pub fn from_split(path: String, start: i64, end: i64) -> (h: HdfsReader)
        requires
            0 <= start <= end,
        ensures
            Self::spec_shell("default"@, path@, start, end, true, h),
            h.wf(),
    {
        HdfsReader {
            name_node: String::from_str("default"),
            path,
            read_pos: start,
            size: end,
            split: true,
            fs: None,
            opened_file: None,
        }
    }

    /// Records the outcome of the native connect call. A missing
    /// session means the coordinator was unreachable, surfaced as an
    /// explicit `ConnectionFailure` with the reader untouched.
    pub fn attach_session(&mut self, session: Option<u64>) -> (r: Result<(), FsError>)
        ensures
            match session {
                Some(s) => {
                    &&& r is Ok
                    &&& *final(self) == (HdfsReader { fs: Some(s), ..*old(self) })
                },
                None => {
                    &&& r == Err::<(), FsError>(FsError::ConnectionFailure)
                    &&& *final(self) == *old(self)
                },
            },
            old(self).wf() ==> final(self).wf(),
    {
        match session {
            Some(s) => {
                self.fs = Some(s);
                Ok(())
            },
            None => Err(FsError::ConnectionFailure),
        }
    }

    /// Records the outcome of the stat that precedes the read-only
    /// open. A null stat means the path does not exist and is surfaced
    /// as `NotFound` with the reader untouched; otherwise the reported
    /// length becomes the read bound — except on a split reader, whose
    /// bound stays the split's end offset. On success the driver issues
    /// the native read-only open and hands the result to
    /// `attach_native`.
    pub fn finish_open(&mut self, stat: Option<PathMetadata>) -> (r: Result<(), FsError>)
        requires
            old(self).wf(),
            old(self).is_connected(),
            !old(self).is_open(),
            stat matches Some(info) ==> info.wf(),
            // Re-caching a length shorter than the cursor would leave the
            // reader outside its reading range; coping with such external
            // truncation is a documented non-goal.
            stat matches Some(info) ==> (!old(self).split ==> old(self).read_pos <= info.size),
        ensures
            final(self).wf(),
            final(self).is_connected(),
            !final(self).is_open(),
            r is Err <==> stat is None,
            r is Err ==> r == Err::<(), FsError>(FsError::NotFound) && *final(self) == *old(self),
            stat matches Some(info) ==> r is Ok && *final(self) == (HdfsReader {
                size: if old(self).split {
                    old(self).size
                } else {
                    info.size
                },
                ..*old(self)
            }),
    {
        match stat {
            Some(info) => {
                if !self.split {
                    self.size = info.size;
                }
                Ok(())
            },
            None => Err(FsError::NotFound),
        }
    }

    /// Records the outcome of the native open call. A null native
    /// handle is a failed native call, surfaced as `IoOther` with the
    /// reader untouched.
    pub fn attach_native(&mut self, handle: Option<u64>) -> (r: Result<(), FsError>)
        requires
            old(self).is_connected(),
        ensures
            match handle {
                Some(t) => {
                    &&& r is Ok
                    &&& *final(self) == (HdfsReader { opened_file: Some(t), ..*old(self) })
                },
                None => {
                    &&& r == Err::<(), FsError>(FsError::IoOther)
                    &&& *final(self) == *old(self)
                },
            },
            old(self).wf() ==> final(self).wf(),
    {
        match handle {
            Some(t) => {
                self.opened_file = Some(t);
                Ok(())
            },
            None => Err(FsError::IoOther),
        }
    }

    /// Plans a read into a buffer of length `buf_len` and advances the
    /// cursor: the driver owes one positional read of exactly the
    /// returned range. The length is the request clamped to what is
    /// left before the size bound, so a cursor at the bound yields a
    /// zero-length plan — end of stream, never an error — and no read
    /// ever reaches past the bound.
    pub fn read_advance(&mut self, buf_len: usize) -> (plan: ReadPlan)
        requires
            old(self).wf(),
            old(self).is_open(),
        ensures
            final(self).wf(),
            plan.offset == old(self).read_pos,
            plan.len == vstd::math::min(buf_len as int, old(self).size - old(self).read_pos),
            plan.len <= buf_len,
            plan.offset + plan.len <= old(self).size,
            final(self).read_pos == old(self).read_pos + plan.len,
            *final(self) == (HdfsReader { read_pos: final(self).read_pos, ..*old(self) }),
            old(self).read_pos == old(self).size ==> plan.len == 0 && *final(self) == *old(self),
    {
        let offset: i64 = self.read_pos;
        let remaining: i64 = self.size - self.read_pos;
        let wanted: u64 = buf_len as u64;
        let taken: u64 = if wanted < remaining as u64 {
            wanted
        } else {
            remaining as u64
        };
        self.read_pos = self.read_pos + taken as i64;
        ReadPlan { offset, len: taken as usize }
    }

    /// Releases the reader: the native file is cleared first, then the
    /// session, and the returned actions tell the driver which native
    /// releases it owes, in that order. Each sub-step is guarded by a
    /// presence check, so closing an already-closed reader is a no-op
    /// that owes nothing: release is safe to call any number of times.
    pub fn close(&mut self) -> (acts: ReleaseActions)
        requires
            old(self).wf(),
        ensures
            *final(self) == old(self).spec_released(),
            final(self).wf(),
            acts.close_file == (match old(self).opened_file {
                Some(f) => Some((old(self).fs->Some_0, f)),
                None => None::<(u64, u64)>,
            }),
            acts.disconnect == old(self).fs,
            !old(self).is_connected() && !old(self).is_open() ==> *final(self) == *old(self)
                && acts.close_file is None && acts.disconnect is None,
    {
        let close_file: Option<(u64, u64)> = match self.opened_file {
            Some(f) => {
                let s: u64 = self.fs.unwrap();
                self.opened_file = None;
                Some((s, f))
            },
            None => None,
        };
        let disconnect: Option<u64> = match self.fs {
            Some(s) => {
                self.fs = None;
                Some(s)
            },
            None => None,
        };
        ReleaseActions { close_file, disconnect }
    }
}

} // verus!
