//! The file handle over the remote filesystem, as a verified state
//! machine.
//!
//! A handle is created closed, by one of four constructors. An
//! unverified driver then performs the native calls and feeds their
//! outcomes back in, in this order: `attach_session` with the result of
//! connect, `resolve_open` with the results of the exists and stat
//! calls, and `attach_native` with the result of the native open. Reads
//! are planned by `read_advance`, which does the cursor arithmetic and
//! tells the driver which absolute byte range to fetch; the driver
//! issues the positional read. `close`, `begin_delete` and the status
//! deciders say which native releases the driver owes and how each
//! status maps to a result. The contracts pin every field of the handle
//! after every step, so the driver holds no logic of its own.

use vstd::prelude::*;
use vstd::string::StringExecFns;
use crate::errors::FsError;
use crate::flags::{O_RDONLY, O_WRONLY, O_CREAT, create_requested, spec_create_requested};
use crate::metadata::{PathMetadata, ListedEntry};

verus! {

/// The positional read a driver owes: fetch `len` bytes starting at
/// absolute byte offset `offset` of the file.
#[derive(Clone, Copy, Debug, PartialEq, Eq, Structural)]
pub struct ReadPlan {
    pub offset: i64,
    pub len: usize,
}

/// The native releases a driver owes after a teardown step, to be
/// performed in field order: close the native file under its session
/// first, then disconnect the session.
#[derive(Clone, Copy, Debug, PartialEq, Eq)]
pub struct ReleaseActions {
    /// `(session, file)` tokens of a native file to close, if one was open.
    pub close_file: Option<(u64, u64)>,
    /// Session token to disconnect, if one was live.
    pub disconnect: Option<u64>,
}

/// How many bytes a read of a handle `h` into a buffer of length
/// `buf_len` transfers: the request clamped to what is left before the
/// handle's size bound.
pub open spec fn spec_read_len(h: HdfsFile, buf_len: nat) -> int {
    vstd::math::min(buf_len as int, h.size - h.read_pos)
}

/// The handle after a read into a buffer of length `buf_len`: the
/// cursor advances by exactly the transferred byte count, and nothing
/// else moves.
pub open spec fn spec_after_read(h: HdfsFile, buf_len: nat) -> HdfsFile {
    HdfsFile { read_pos: (h.read_pos + spec_read_len(h, buf_len)) as i64, ..h }
}

/// A client handle on one remote file.
///
/// `fs` and `opened_file` hold driver-issued tokens that stand for the
/// native session and file handles; `None` means the resource is not
/// held. The cursor `read_pos` governs reads only: every physical read
/// is positional, and writes never move it.
pub struct HdfsFile {
    /// Coordinator endpoint; `"default"` means the environment-configured one.
    pub name_node: String,
    /// Logical path of the file.
    pub path: String,
    /// Read cursor, advanced by reads only; always within `[0, size]`.
    pub read_pos: i64,
    /// Remaining-size bound for reads: the cached file length, or, for a
    /// split handle, the split's end offset.
    pub size: i64,
    /// Cached remote block size, informational only.
    pub block_size: i64,
    /// The open flags this handle was constructed with.
    pub flags: u32,
    /// True when the handle was made by `from_split`: its `size` is the
    /// split's end offset and is kept across the stat of the open flow.
    pub split: bool,
    /// Token for the native session, when connected.
    pub fs: Option<u64>,
    /// Token for the native file handle, when open.
    pub opened_file: Option<u64>,
}

impl HdfsFile {
    /// A native file handle is only ever held under a live session, and
    /// the read cursor stays within the readable range.
    pub open spec fn wf(self) -> bool {
        &&& 0 <= self.read_pos
        &&& self.read_pos <= self.size
        &&& 0 <= self.block_size
        &&& self.opened_file is Some ==> self.fs is Some
    }

    /// Whether the handle holds a live session.
    pub open spec fn is_connected(self) -> bool {
        self.fs is Some
    }

    /// Whether the handle holds an open native file.
    pub open spec fn is_open(self) -> bool {
        self.opened_file is Some
    }

    /// The handle with both native resources released.
    pub open spec fn spec_released(self) -> HdfsFile {
        HdfsFile { fs: None, opened_file: None, ..self }
    }

    /// The closed shell every constructor starts from.
    pub open spec fn spec_shell(
        name_node: Seq<char>,
        path: Seq<char>,
        read_pos: i64,
        size: i64,
        flags: u32,
        split: bool,
        h: HdfsFile,
    ) -> bool {
        &&& h.name_node@ == name_node
        &&& h.path@ == path
        &&& h.read_pos == read_pos
        &&& h.size == size
        &&& h.block_size == 0
        &&& h.flags == flags
        &&& h.split == split
        &&& h.fs is None
        &&& h.opened_file is None
    }

    /// Begins opening an existing file read-only on an explicitly named
    /// coordinator. The driver completes the open flow.
    pub fn init_with_name_node(name_node: String, path: String) -> (h: HdfsFile)
        ensures
            Self::spec_shell(name_node@, path@, 0, 0, O_RDONLY, false, h),
            h.wf(),
    {
        HdfsFile {
            name_node,
            path,
            read_pos: 0,
            size: 0,
            block_size: 0,
            flags: O_RDONLY,
            split: false,
            fs: None,
            opened_file: None,
        }
    }

    /// Begins opening an existing file read-only on the default
    /// coordinator. The driver completes the open flow.
    pub fn open(path: String) -> (h: HdfsFile)
        ensures
            Self::spec_shell("default"@, path@, 0, 0, O_RDONLY, false, h),
            h.wf(),
    {
        HdfsFile {
            name_node: String::from_str("default"),
            path,
            read_pos: 0,
            size: 0,
            block_size: 0,
            flags: O_RDONLY,
            split: false,
            fs: None,
            opened_file: None,
        }
    }

    /// Begins opening a file in write mode, creating it if it is
    /// missing. The driver completes the open flow.
    pub fn create(path: String) -> (h: HdfsFile)
        ensures
            Self::spec_shell("default"@, path@, 0, 0, O_WRONLY | O_CREAT, false, h),
            spec_create_requested(h.flags),
            h.wf(),
    {
        proof {
            crate::flags::lemma_create_requested_values();
        }
        HdfsFile {
            name_node: String::from_str("default"),
            path,
            read_pos: 0,
            size: 0,
            block_size: 0,
            flags: O_WRONLY | O_CREAT,
            split: false,
            fs: None,
            opened_file: None,
        }
    }

    /// Begins opening the byte range `[start, end)` of a shared file
    /// read-only: the cursor is seeded at `start` and the size bound at
    /// `end`, so reads stay inside the split. The driver completes the
    /// open flow.
    pub fn from_split(path: String, start: i64, end: i64) -> (h: HdfsFile)
        requires
            0 <= start <= end,
        ensures
            Self::spec_shell("default"@, path@, start, end, O_RDONLY, true, h),
            h.wf(),
    {
        HdfsFile {
            name_node: String::from_str("default"),
            path,
            read_pos: start,
            size: end,
            block_size: 0,
            flags: O_RDONLY,
            split: true,
            fs: None,
            opened_file: None,
        }
    }

    /// Records the outcome of the native connect call. A missing
    /// session means the coordinator was unreachable, surfaced as an
    /// explicit `ConnectionFailure` rather than an abort; the handle is
    /// then left untouched.
    pub fn attach_session(&mut self, session: Option<u64>) -> (r: Result<(), FsError>)
        ensures
            match session {
                Some(s) => {
                    &&& r is Ok
                    &&& *final(self) == (HdfsFile { fs: Some(s), ..*old(self) })
                },
                None => {
                    &&& r == Err::<(), FsError>(FsError::ConnectionFailure)
                    &&& *final(self) == *old(self)
                },
            },
            old(self).wf() ==> final(self).wf(),
    {
        match session {
            Some(s) => {
                self.fs = Some(s);
                Ok(())
            },
            None => Err(FsError::ConnectionFailure),
        }
    }

    /// Resolves the open-or-create branch from the outcomes of the
    /// exists and stat calls, for an open with flag word `flag`.
    ///
    /// A missing path without create intent is refused with `NotFound`
    /// and the handle is untouched. An existing path has its stat sizes
    /// cached: the file length becomes the read bound — except on a
    /// split handle, whose bound stays the split's end offset — and the
    /// block size is cached either way. A missing path with create
    /// intent changes nothing; its size stays 0 until a flush makes
    /// content durable. On success the driver must issue the native
    /// open with the returned flag word and hand the result to
    /// `attach_native`.
    pub fn resolve_open(&mut self, flag: u32, exists: bool, stat: Option<PathMetadata>) -> (r:
        Result<u32, FsError>)
        requires
            old(self).wf(),
            old(self).is_connected(),
            !old(self).is_open(),
            exists ==> stat is Some && stat->Some_0.wf(),
            // Re-caching a length shorter than the cursor would leave the
            // handle outside its reading range; coping with such external
            // truncation is a documented non-goal.
            exists && !old(self).split ==> old(self).read_pos <= stat->Some_0.size,
        ensures
            final(self).wf(),
            final(self).is_connected(),
            !final(self).is_open(),
            r is Err <==> !exists && !spec_create_requested(flag),
            r is Err ==> r == Err::<u32, FsError>(FsError::NotFound) && *final(self) == *old(
                self,
            ),
            r is Ok ==> r == Ok::<u32, FsError>(flag),
            r is Ok && exists ==> *final(self) == (HdfsFile {
                size: if old(self).split {
                    old(self).size
                } else {
                    stat->Some_0.size
                },
                block_size: stat->Some_0.block_size,
                ..*old(self)
            }),
            r is Ok && !exists ==> *final(self) == *old(self),
    {
        if !exists && !create_requested(flag) {
            return Err(FsError::NotFound);
        }
        if exists {
            let info = stat.unwrap();
            if !self.split {
                self.size = info.size;
            }
            self.block_size = info.block_size;
        }
        Ok(flag)
    }

    /// Records the outcome of the native open call. A null native
    /// handle is a failed native call, surfaced as `IoOther` with the
    /// handle untouched.
    pub fn attach_native(&mut self, handle: Option<u64>) -> (r: Result<(), FsError>)
        requires
            old(self).is_connected(),
        ensures
            match handle {
                Some(t) => {
                    &&& r is Ok
                    &&& *final(self) == (HdfsFile { opened_file: Some(t), ..*old(self) })
                },
                None => {
                    &&& r == Err::<(), FsError>(FsError::IoOther)
                    &&& *final(self) == *old(self)
                },
            },
            old(self).wf() ==> final(self).wf(),
    {
        match handle {
            Some(t) => {
                self.opened_file = Some(t);
                Ok(())
            },
            None => Err(FsError::IoOther),
        }
    }

    /// Whether a read must first resurrect the handle. A closed handle
    /// is not dead: the state machine permits the transition back to
    /// open for a path that was opened before, by re-running the open
    /// flow (`attach_session`, `resolve_open` with the read-only flag,
    /// `attach_native`) before the read is planned.
    pub fn needs_reopen(&self) -> (r: bool)
        ensures
            r == !self.is_open(),
    {
        self.opened_file.is_none()
    }

    /// Plans a read into a buffer of length `buf_len` and advances the
    /// cursor: the driver owes one positional read of exactly the
    /// returned range. The length is the request clamped to what is
    /// left before the size bound, so a cursor at the bound yields a
    /// zero-length plan — end of stream, never an error — and no read
    /// ever reaches past the bound.
    pub fn read_advance(&mut self, buf_len: usize) -> (plan: ReadPlan)
        requires
            old(self).wf(),
            old(self).is_open(),
        ensures
            final(self).wf(),
            plan.offset == old(self).read_pos,
            plan.len == spec_read_len(*old(self), buf_len as nat),
            plan.len <= buf_len,
            plan.offset + plan.len <= old(self).size,
            *final(self) == spec_after_read(*old(self), buf_len as nat),
            old(self).read_pos == old(self).size ==> plan.len == 0 && *final(self) == *old(self),
    {
        let offset: i64 = self.read_pos;
        let remaining: i64 = self.size - self.read_pos;
        let wanted: u64 = buf_len as u64;
        let taken: u64 = if wanted < remaining as u64 {
            wanted
        } else {
            remaining as u64
        };
        self.read_pos = self.read_pos + taken as i64;
        ReadPlan { offset, len: taken as usize }
    }

    /// Releases the handle: the native file is cleared first, then the
    /// session, and the returned actions tell the driver which native
    /// releases it owes, in that order. Each sub-step is guarded by a
    /// presence check, so closing an already-closed handle is a no-op
    /// that owes nothing: release is safe to call any number of times.
    pub fn close(&mut self) -> (acts: ReleaseActions)
        requires
            old(self).wf(),
        ensures
            *final(self) == old(self).spec_released(),
            final(self).wf(),
            acts.close_file == (match old(self).opened_file {
                Some(f) => Some((old(self).fs->Some_0, f)),
                None => None::<(u64, u64)>,
            }),
            acts.disconnect == old(self).fs,
            !old(self).is_connected() && !old(self).is_open() ==> *final(self) == *old(self)
                && acts.close_file is None && acts.disconnect is None,
    {
        let close_file: Option<(u64, u64)> = match self.opened_file {
            Some(f) => {
                let s: u64 = self.fs.unwrap();
                self.opened_file = None;
                Some((s, f))
            },
            None => None,
        };
        let disconnect: Option<u64> = match self.fs {
            Some(s) => {
                self.fs = None;
                Some(s)
            },
            None => None,
        };
        ReleaseActions { close_file, disconnect }
    }

    /// First half of a delete: the native file is closed if one is
    /// open — the returned `(session, file)` tokens are what the driver
    /// owes a native close for — but the session is kept, since the
    /// remote delete of the path is issued over it next. The driver
    /// hands the delete call's status to `delete_result`.
    pub fn begin_delete(&mut self) -> (r: Option<(u64, u64)>)
        requires
            old(self).wf(),
            old(self).is_connected(),
        ensures
            final(self).wf(),
            *final(self) == (HdfsFile { opened_file: None, ..*old(self) }),
            final(self).is_connected(),
            r == (match old(self).opened_file {
                Some(f) => Some((old(self).fs->Some_0, f)),
                None => None::<(u64, u64)>,
            }),
    {
        match self.opened_file {
            Some(f) => {
                let s: u64 = self.fs.unwrap();
                self.opened_file = None;
                Some((s, f))
            },
            None => None,
        }
    }
}

/// Maps the status of the native delete call to the operation's result:
/// zero is success, anything else an `IoOther` failure.
pub fn delete_result(status: i32) -> (r: Result<(), FsError>)
    ensures
        r is Ok <==> status == 0,
        r is Err ==> r == Err::<(), FsError>(FsError::IoOther),
{
    if status == 0 {
        Ok(())
    } else {
        Err(FsError::IoOther)
    }
}

/// Maps the status of the native flush call to the operation's result:
/// zero means the buffered data reached the native layer's durability
/// contract, anything else is an `IoOther` failure.
pub fn flush_result(status: i32) -> (r: Result<(), FsError>)
    ensures
        r is Ok <==> status == 0,
        r is Err ==> r == Err::<(), FsError>(FsError::IoOther),
{
    if status == 0 {
        Ok(())
    } else {
        Err(FsError::IoOther)
    }
}

/// Whether `e` is the inert directory entry for listing record `rec`:
/// a handle carrying the record's path and metadata on the default
/// coordinator, read-only, with no native resources held — it stays
/// inert until a caller re-runs the open flow on it.
pub open spec fn spec_dir_entry(rec: ListedEntry, e: HdfsFile) -> bool {
    &&& e.name_node@ == "default"@
    &&& e.path@ == rec.name@
    &&& e.read_pos == 0
    &&& e.size == rec.size
    &&& e.block_size == rec.block_size
    &&& e.flags == O_RDONLY
    &&& !e.split
    &&& e.fs is None
    &&& e.opened_file is None
}

/// Converts a fully materialized native directory listing into inert
/// directory entries: exactly one well-formed handle per listed record,
/// in listing order, each populated with the record's path and sizes
/// but holding no native resources.
pub fn entries_from_listing(listing: &Vec<ListedEntry>) -> (entries: Vec<HdfsFile>)
    requires
        forall|i: int| 0 <= i < listing@.len() ==> (#[trigger] listing@[i]).wf(),
    ensures
        entries@.len() == listing@.len(),
        forall|i: int|
            0 <= i < listing@.len() ==> spec_dir_entry(listing@[i], #[trigger] entries@[i]),
        forall|i: int| 0 <= i < listing@.len() ==> (#[trigger] entries@[i]).wf(),
{
    let mut entries: Vec<HdfsFile> = Vec::new();
    let mut i: usize = 0;
    while i < listing.len()
        invariant
            forall|k: int| 0 <= k < listing@.len() ==> (#[trigger] listing@[k]).wf(),
            i <= listing@.len(),
            entries@.len() == i,
            forall|k: int| 0 <= k < i ==> spec_dir_entry(listing@[k], #[trigger] entries@[k]),
            forall|k: int| 0 <= k < i ==> (#[trigger] entries@[k]).wf(),
        decreases listing@.len() - i,
    {
        let rec = &listing[i];
        let entry = HdfsFile {
            name_node: String::from_str("default"),
            path: rec.name.clone(),
            read_pos: 0,
            size: rec.size,
            block_size: rec.block_size,
            flags: O_RDONLY,
            split: false,
            fs: None,
            opened_file: None,
        };
        entries.push(entry);
        i = i + 1;
    }
    entries
}

/// Collects the locality hosts of every block covering a byte range
/// into one flat sequence: the per-block host lists, already
/// materialized by the driver from the native nested arrays, are
/// concatenated in block order with every host kept — duplicates across
/// blocks included, since callers that want distinct hosts deduplicate
/// themselves.
pub fn collect_hosts(blocks: &Vec<Vec<String>>) -> (hosts: Vec<String>)
    ensures
        hosts@ == blocks@.flat_map(|b: Vec<String>| b@),
        blocks@.len() == 0 ==> hosts@.len() == 0,
{
    let ghost f = |b: Vec<String>| b@;
    let mut hosts: Vec<String> = Vec::new();
    proof {
        assert(blocks@.take(0).flat_map(f) =~= Seq::<String>::empty());
    }
    let mut i: usize = 0;
    while i < blocks.len()
        invariant
            f == (|b: Vec<String>| b@),
            i <= blocks@.len(),
            hosts@ == blocks@.take(i as int).flat_map(f),
        decreases blocks@.len() - i,
    {
        let block = &blocks[i];
        let mut j: usize = 0;
        while j < block.len()
            invariant
                f == (|b: Vec<String>| b@),
                0 <= i < blocks@.len(),
                j <= block@.len(),
                block == &blocks[i as int],
                hosts@ == blocks@.take(i as int).flat_map(f) + block@.take(j as int),
            decreases block@.len() - j,
        {
            hosts.push(block[j].clone());
            proof {
                assert(block@.take(j + 1) =~= block@.take(j as int).push(block@[j as int]));
            }
            j = j + 1;
        }
        proof {
            blocks@.lemma_flat_map_take_append(f, i as int);
            assert(block@.take(block@.len() as int) =~= block@);
            assert(hosts@ =~= blocks@.take(i + 1).flat_map(f));
        }
        i = i + 1;
    }
    proof {
        assert(blocks@.take(blocks@.len() as int) =~= blocks@);
    }
    hosts
}

/// Reading at the size bound is end of stream: for any open readable
/// handle whose cursor sits at its size, a read of any buffer length
/// transfers zero bytes and leaves the handle exactly as it was.
pub proof fn lemma_read_at_end(h: HdfsFile, buf_len: nat)
    requires
        h.wf(),
        h.read_pos == h.size,
    ensures
        spec_read_len(h, buf_len) == 0,
        spec_after_read(h, buf_len) == h,
{
}

/// A read never transfers more than asked nor reaches past the size
/// bound, and the cursor only moves forward: every byte a read plan
/// covers lies in `[cursor, size)`. On a handle made by `from_split`,
/// whose cursor starts at the split's start offset and whose size is
/// the split's end offset, reads therefore stay within `[start, end)`
/// and never read beyond `end`.
pub proof fn lemma_read_within_bounds(h: HdfsFile, buf_len: nat)
    requires
        h.wf(),
    ensures
        0 <= spec_read_len(h, buf_len) <= buf_len,
        h.read_pos + spec_read_len(h, buf_len) <= h.size,
        h.read_pos <= spec_after_read(h, buf_len).read_pos,
        spec_after_read(h, buf_len).wf(),
        spec_after_read(h, buf_len).size == h.size,
{
}

/// Sequential reads tile the file without gap or overlap: the second
/// read of a handle starts exactly where the first one ended, whatever
/// the two buffer lengths are. Hence a reader that starts at the
/// beginning and reads to end of stream is handed every byte of
/// `[0, size)` exactly once, in order — the read half of the
/// write-flush-close-reopen-read round trip.
pub proof fn lemma_reads_are_contiguous(h: HdfsFile, buf_len1: nat, buf_len2: nat)
    requires
        h.wf(),
    ensures
        spec_after_read(h, buf_len1).read_pos == h.read_pos + spec_read_len(h, buf_len1),
        spec_after_read(h, buf_len1).read_pos + spec_read_len(spec_after_read(h, buf_len1), buf_len2)
            <= h.size,
{
}

/// A single read with a buffer at least as long as the file hands back
/// the whole remaining range at once: from a fresh cursor it covers
/// exactly `[0, size)`, after which the handle sits at end of stream
/// and a second read of any length transfers zero bytes.
pub proof fn lemma_full_read_then_empty(h: HdfsFile, buf_len1: nat, buf_len2: nat)
    requires
        h.wf(),
        h.read_pos == 0,
        buf_len1 >= h.size,
    ensures
        spec_read_len(h, buf_len1) == h.size,
        spec_after_read(h, buf_len1).read_pos == h.size,
        spec_read_len(spec_after_read(h, buf_len1), buf_len2) == 0,
        spec_after_read(spec_after_read(h, buf_len1), buf_len2) == spec_after_read(h, buf_len1),
{
}

/// Release is idempotent: releasing a handle strips exactly its native
/// resources, releasing it again changes nothing, and a released
/// handle holds no session and no native file, while its path, cursor
/// and sizes survive teardown untouched.
pub proof fn lemma_release_idempotent(h: HdfsFile)
    ensures
        h.spec_released().spec_released() == h.spec_released(),
        !h.spec_released().is_connected(),
        !h.spec_released().is_open(),
        h.spec_released().path == h.path,
        h.spec_released().read_pos == h.read_pos,
        h.spec_released().size == h.size,
        h.wf() ==> h.spec_released().wf(),
{
}

/// Decides the one-shot directory delete from the outcome of the
/// exists check: a missing path is refused with `NotFound` and nothing
/// further is owed; an existing one is deleted — the driver issues the
/// native delete, whose status this operation deliberately ignores —
/// and the short-lived session is disconnected either way.
pub fn delete_dir_outcome(exists: bool) -> (r: Result<(), FsError>)
    ensures
        r is Ok <==> exists,
        r is Err ==> r == Err::<(), FsError>(FsError::NotFound),
{
    if exists {
        Ok(())
    } else {
        Err(FsError::NotFound)
    }
}

} // verus!
