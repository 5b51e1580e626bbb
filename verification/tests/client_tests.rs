use hdfs_client::hdfs_fs::{
    collect_hosts, delete_dir_outcome, delete_result, entries_from_listing, flush_result,
};
use hdfs_client::{
    FsError, HdfsFile, HdfsReader, ListedEntry, PathKind, PathMetadata, ReadPlan, ReleaseActions,
    O_RDONLY,
};
use rand::distributions::Alphanumeric;
use rand::{thread_rng, Rng};
use std::collections::HashMap;

/// An in-memory stand-in for the native distributed filesystem: it
/// serves the same calls the real driver makes and lets the tests run
/// the verified state machine end to end.
struct Cluster {
    files: HashMap<String, Vec<u8>>,
    open_files: HashMap<u64, String>,
    next_token: u64,
    block_size: i64,
}

impl Cluster {
    fn new() -> Cluster {
        Cluster { files: HashMap::new(), open_files: HashMap::new(), next_token: 0, block_size: 128 }
    }

    fn connect(&mut self) -> Option<u64> {
        self.next_token += 1;
        Some(self.next_token)
    }

    fn path_exists(&self, path: &str) -> bool {
        self.files.contains_key(path)
    }

    fn stat(&self, path: &str) -> Option<PathMetadata> {
        self.files.get(path).map(|data| PathMetadata {
            kind: PathKind::File,
            size: data.len() as i64,
            block_size: self.block_size,
        })
    }

    fn open_native(&mut self, path: &str, create: bool) -> Option<u64> {
        if !self.files.contains_key(path) {
            if !create {
                return None;
            }
            self.files.insert(path.to_string(), Vec::new());
        }
        self.next_token += 1;
        self.open_files.insert(self.next_token, path.to_string());
        Some(self.next_token)
    }

    fn pread(&self, token: u64, plan: ReadPlan, buf: &mut [u8]) -> usize {
        let path = &self.open_files[&token];
        let data = &self.files[path];
        let off = plan.offset as usize;
        let n = plan.len.min(data.len().saturating_sub(off));
        buf[..n].copy_from_slice(&data[off..off + n]);
        n
    }

    fn write(&mut self, token: u64, bytes: &[u8]) -> i32 {
        let path = self.open_files[&token].clone();
        self.files.get_mut(&path).unwrap().extend_from_slice(bytes);
        bytes.len() as i32
    }

    fn flush(&self, _token: u64) -> i32 {
        0
    }

    fn close_native(&mut self, pair: (u64, u64)) {
        self.open_files.remove(&pair.1);
    }

    fn release(&mut self, acts: ReleaseActions) {
        if let Some(pair) = acts.close_file {
            self.close_native(pair);
        }
        // disconnecting the session needs no bookkeeping here
    }

    fn delete(&mut self, path: &str) -> i32 {
        if self.files.remove(path).is_some() {
            0
        } else {
            -1
        }
    }
}

/// Runs the open flow of a file handle against the cluster, exactly as
/// the native driver does: connect, exists, stat, resolve, open.
fn drive_open(c: &mut Cluster, h: &mut HdfsFile) -> Result<(), FsError> {
    drive_open_with(c, h, h.flags)
}

fn drive_open_with(c: &mut Cluster, h: &mut HdfsFile, flag: u32) -> Result<(), FsError> {
    h.attach_session(c.connect())?;
    let path = h.path.clone();
    let exists = c.path_exists(&path);
    let stat = if exists { c.stat(&path) } else { None };
    let flag = h.resolve_open(flag, exists, stat)?;
    let create = flag & hdfs_client::O_CREAT != 0;
    let token = c.open_native(&path, create);
    h.attach_native(token)?;
    Ok(())
}

/// One read step: resurrect a closed handle read-only first, then let
/// the planner clamp and advance, and serve the planned range.
fn drive_read(c: &mut Cluster, h: &mut HdfsFile, buf: &mut [u8]) -> usize {
    if h.needs_reopen() {
        drive_open_with(c, h, O_RDONLY).unwrap();
    }
    let plan = h.read_advance(buf.len());
    let token = h.opened_file.unwrap();
    c.pread(token, plan, buf)
}

fn drive_write(c: &mut Cluster, h: &HdfsFile, bytes: &[u8]) -> usize {
    let token = h.opened_file.unwrap();
    c.write(token, bytes) as usize
}

fn drive_flush(c: &Cluster, h: &HdfsFile) -> Result<(), FsError> {
    let token = h.opened_file.unwrap();
    flush_result(c.flush(token))
}

fn drive_close(c: &mut Cluster, h: &mut HdfsFile) {
    let acts = h.close();
    c.release(acts);
}

fn drive_delete(c: &mut Cluster, h: &mut HdfsFile) -> Result<(), FsError> {
    if let Some(pair) = h.begin_delete() {
        c.close_native(pair);
    }
    let path = h.path.clone();
    delete_result(c.delete(&path))
}

fn drive_reader_open(c: &mut Cluster, h: &mut HdfsReader) -> Result<(), FsError> {
    h.attach_session(c.connect())?;
    let path = h.path.clone();
    let stat = c.stat(&path);
    h.finish_open(stat)?;
    let token = c.open_native(&path, false);
    h.attach_native(token)?;
    Ok(())
}

fn drive_reader_read(c: &Cluster, h: &mut HdfsReader, buf: &mut [u8]) -> usize {
    let plan = h.read_advance(buf.len());
    let token = h.opened_file.unwrap();
    c.pread(token, plan, buf)
}

fn random_path() -> String {
    let suffix: String = thread_rng().sample_iter(&Alphanumeric).take(10).map(char::from).collect();
    ["/", suffix.as_str()].concat()
}

#[test]
fn test_hdfs_fs_write() {
    let mut cluster = Cluster::new();
    let path = random_path();

    let mut hdfs_file = HdfsFile::create(path);
    drive_open(&mut cluster, &mut hdfs_file).unwrap();

    let buffer = String::from("HHHHHello worldddddd\n");
    let written_bytes = drive_write(&mut cluster, &hdfs_file, buffer.as_bytes());
    drive_flush(&cluster, &hdfs_file).unwrap();

    assert_eq!(written_bytes, buffer.len());

    drive_delete(&mut cluster, &mut hdfs_file).unwrap();
    drive_close(&mut cluster, &mut hdfs_file);
}

#[test]
fn test_hdfs_fs_read() {
    let mut cluster = Cluster::new();
    let path = random_path();

    let mut hdfs_writer = HdfsFile::create(path.clone());
    drive_open(&mut cluster, &mut hdfs_writer).unwrap();

    let buffer = String::from("HHHHHello\nworldddddd\n");
    drive_write(&mut cluster, &hdfs_writer, buffer.as_bytes());
    drive_flush(&cluster, &hdfs_writer).unwrap();
    drive_close(&mut cluster, &mut hdfs_writer);

    let mut hdfs_reader = HdfsFile::open(path);
    drive_open(&mut cluster, &mut hdfs_reader).unwrap();
    let mut content = Vec::new();
    let mut chunk = [0u8; 8];
    loop {
        let n = drive_read(&mut cluster, &mut hdfs_reader, &mut chunk);
        if n == 0 {
            break;
        }
        content.extend_from_slice(&chunk[..n]);
    }
    println!("outputing file:");
    for line in String::from_utf8(content).unwrap().lines() {
        println!("{}", line);
    }
}

#[test]
fn test_hdfs_fs_read_dir() {
    let mut cluster = Cluster::new();
    cluster.files.insert("/a".to_string(), vec![1, 2, 3]);
    cluster.files.insert("/b".to_string(), vec![4, 5]);

    let mut names: Vec<String> = cluster.files.keys().cloned().collect();
    names.sort();
    let listing: Vec<ListedEntry> = names
        .iter()
        .map(|name| {
            let meta = cluster.stat(name).unwrap();
            ListedEntry { name: name.clone(), size: meta.size, block_size: meta.block_size }
        })
        .collect();

    let entries = entries_from_listing(&listing);
    for entry in &entries {
        println!("{}", entry.path);
    }
    assert_eq!(entries.len(), 2);
}

#[test]
fn round_trip_bytes() {
    let mut cluster = Cluster::new();
    let path = random_path();
    let payload: Vec<u8> = (0u8..=255).collect();

    let mut writer = HdfsFile::create(path.clone());
    drive_open(&mut cluster, &mut writer).unwrap();
    assert_eq!(drive_write(&mut cluster, &writer, &payload), payload.len());
    drive_flush(&cluster, &writer).unwrap();
    drive_close(&mut cluster, &mut writer);

    let mut reader = HdfsFile::open(path);
    drive_open(&mut cluster, &mut reader).unwrap();
    let mut back = vec![0u8; payload.len()];
    let n = drive_read(&mut cluster, &mut reader, &mut back);
    assert_eq!(n, payload.len());
    assert_eq!(back, payload);
    drive_close(&mut cluster, &mut reader);
}

#[test]
fn open_missing_path_is_not_found() {
    let mut cluster = Cluster::new();
    let mut handle = HdfsFile::open("/nowhere".to_string());
    let r = drive_open(&mut cluster, &mut handle);
    assert_eq!(r, Err(FsError::NotFound));
}

#[test]
fn read_at_end_returns_zero() {
    let mut cluster = Cluster::new();
    cluster.files.insert("/five".to_string(), vec![9u8; 5]);

    let mut handle = HdfsFile::open("/five".to_string());
    drive_open(&mut cluster, &mut handle).unwrap();
    let mut buf = [0u8; 16];
    assert_eq!(drive_read(&mut cluster, &mut handle, &mut buf), 5);
    // the cursor now sits at the size bound: end of stream, not an error
    assert_eq!(drive_read(&mut cluster, &mut handle, &mut buf), 0);
    assert_eq!(handle.read_pos, 5);

    // an empty file is at end of stream from the start
    cluster.files.insert("/empty".to_string(), Vec::new());
    let mut empty = HdfsFile::open("/empty".to_string());
    drive_open(&mut cluster, &mut empty).unwrap();
    assert_eq!(drive_read(&mut cluster, &mut empty, &mut buf), 0);
}

#[test]
fn delete_makes_path_not_exist() {
    let mut cluster = Cluster::new();
    let path = random_path();
    let mut handle = HdfsFile::create(path.clone());
    drive_open(&mut cluster, &mut handle).unwrap();
    drive_write(&mut cluster, &handle, b"gone soon");
    drive_flush(&cluster, &handle).unwrap();

    assert!(cluster.path_exists(&path));
    assert_eq!(drive_delete(&mut cluster, &mut handle), Ok(()));
    assert!(!cluster.path_exists(&path));
    // the session survives a delete; a full close releases it
    assert!(handle.fs.is_some());
    drive_close(&mut cluster, &mut handle);
}

#[test]
fn split_reads_exactly_its_range() {
    let mut cluster = Cluster::new();
    let alphabet: Vec<u8> = (b'a'..=b'z').collect();
    cluster.files.insert("/alpha".to_string(), alphabet.clone());

    let mut split = HdfsFile::from_split("/alpha".to_string(), 5, 15);
    drive_open(&mut cluster, &mut split).unwrap();
    // the stat of the open flow must not clobber the split's end bound
    assert_eq!(split.size, 15);
    assert_eq!(split.read_pos, 5);

    let mut collected = Vec::new();
    let mut chunk = [0u8; 4];
    loop {
        let n = drive_read(&mut cluster, &mut split, &mut chunk);
        if n == 0 {
            break;
        }
        collected.extend_from_slice(&chunk[..n]);
    }
    assert_eq!(collected, alphabet[5..15].to_vec());
    assert_eq!(split.read_pos, 15);
}

#[test]
fn listing_yields_one_entry_per_record() {
    let listing = vec![
        ListedEntry { name: "/data/one".to_string(), size: 10, block_size: 128 },
        ListedEntry { name: "/data/two".to_string(), size: 0, block_size: 128 },
        ListedEntry { name: "/data/three".to_string(), size: 7, block_size: 64 },
    ];
    let entries = entries_from_listing(&listing);
    assert_eq!(entries.len(), 3);
    for (entry, record) in entries.iter().zip(listing.iter()) {
        assert_eq!(entry.path, record.name);
        assert_eq!(entry.size, record.size);
        assert!(entry.size >= 0);
        assert_eq!(entry.block_size, record.block_size);
        assert_eq!(entry.name_node, "default");
        assert_eq!(entry.read_pos, 0);
        assert!(entry.fs.is_none());
        assert!(entry.opened_file.is_none());
    }
}

#[test]
fn hosts_of_zero_blocks_are_empty() {
    let blocks: Vec<Vec<String>> = Vec::new();
    let hosts = collect_hosts(&blocks);
    assert!(hosts.is_empty());
}

#[test]
fn hosts_keep_order_and_duplicates() {
    let blocks = vec![
        vec!["node1".to_string(), "node2".to_string()],
        vec!["node2".to_string(), "node3".to_string()],
        Vec::new(),
        vec!["node1".to_string()],
    ];
    let hosts = collect_hosts(&blocks);
    assert_eq!(hosts, vec!["node1", "node2", "node2", "node3", "node1"]);
}

#[test]
fn stat_and_read_twenty_one_bytes() {
    let mut cluster = Cluster::new();

    let mut writer = HdfsFile::create("/t".to_string());
    drive_open(&mut cluster, &mut writer).unwrap();
    let content = String::from("HHHHHello worldddddd\n");
    assert_eq!(drive_write(&mut cluster, &writer, content.as_bytes()), 21);
    drive_flush(&cluster, &writer).unwrap();
    drive_close(&mut cluster, &mut writer);

    let mut reader = HdfsFile::open("/t".to_string());
    drive_open(&mut cluster, &mut reader).unwrap();
    assert_eq!(cluster.stat("/t").unwrap().size, 21);
    assert_eq!(reader.size, 21);

    let mut buf = [0u8; 100];
    let n = drive_read(&mut cluster, &mut reader, &mut buf);
    assert_eq!(n, 21);
    assert_eq!(&buf[..21], content.as_bytes());
    assert_eq!(drive_read(&mut cluster, &mut reader, &mut buf), 0);
}

#[test]
fn closed_handle_is_resurrected_by_read() {
    let mut cluster = Cluster::new();
    cluster.files.insert("/keep".to_string(), b"0123456789".to_vec());

    let mut handle = HdfsFile::open("/keep".to_string());
    drive_open(&mut cluster, &mut handle).unwrap();
    let mut buf = [0u8; 4];
    assert_eq!(drive_read(&mut cluster, &mut handle, &mut buf), 4);
    assert_eq!(&buf, b"0123");

    drive_close(&mut cluster, &mut handle);
    assert!(handle.needs_reopen());

    // the cursor survives the close, and the read reopens the handle
    assert_eq!(drive_read(&mut cluster, &mut handle, &mut buf), 4);
    assert_eq!(&buf, b"4567");
    assert!(!handle.needs_reopen());
}

#[test]
fn close_is_idempotent() {
    let mut cluster = Cluster::new();
    cluster.files.insert("/once".to_string(), vec![1u8]);

    let mut handle = HdfsFile::open("/once".to_string());
    drive_open(&mut cluster, &mut handle).unwrap();
    let first = handle.close();
    assert!(first.close_file.is_some());
    assert!(first.disconnect.is_some());
    cluster.release(first);

    let second = handle.close();
    assert_eq!(second.close_file, None);
    assert_eq!(second.disconnect, None);
}

#[test]
fn connection_failure_is_explicit() {
    let mut handle = HdfsFile::open("/any".to_string());
    let r = handle.attach_session(None);
    assert_eq!(r, Err(FsError::ConnectionFailure));
    assert!(handle.fs.is_none());
}

#[test]
fn native_failure_statuses_map_to_io_other() {
    assert_eq!(flush_result(0), Ok(()));
    assert_eq!(flush_result(1), Err(FsError::IoOther));
    assert_eq!(delete_result(0), Ok(()));
    assert_eq!(delete_result(-1), Err(FsError::IoOther));
}

#[test]
fn delete_dir_on_missing_path_is_not_found() {
    assert_eq!(delete_dir_outcome(true), Ok(()));
    assert_eq!(delete_dir_outcome(false), Err(FsError::NotFound));
}

#[test]
fn reader_reads_sequentially() {
    let mut cluster = Cluster::new();
    cluster.files.insert("/lines".to_string(), b"abcdefgh".to_vec());

    let mut reader = HdfsReader::init("/lines".to_string());
    drive_reader_open(&mut cluster, &mut reader).unwrap();
    assert_eq!(reader.size, 8);

    let mut buf = [0u8; 3];
    assert_eq!(drive_reader_read(&cluster, &mut reader, &mut buf), 3);
    assert_eq!(&buf, b"abc");
    assert_eq!(drive_reader_read(&cluster, &mut reader, &mut buf), 3);
    assert_eq!(&buf, b"def");
    assert_eq!(drive_reader_read(&cluster, &mut reader, &mut buf), 2);
    assert_eq!(&buf[..2], b"gh");
    assert_eq!(drive_reader_read(&cluster, &mut reader, &mut buf), 0);

    let acts = reader.close();
    cluster.release(acts);
    let again = reader.close();
    assert_eq!(again.close_file, None);
}

#[test]
fn reader_missing_path_is_not_found() {
    let mut cluster = Cluster::new();
    let mut reader = HdfsReader::init_with_name_node(
        "namenode:9000".to_string(),
        "/absent".to_string(),
    );
    assert_eq!(reader.name_node, "namenode:9000");
    let r = drive_reader_open(&mut cluster, &mut reader);
    assert_eq!(r, Err(FsError::NotFound));
}

#[test]
fn reader_split_keeps_its_bounds() {
    let mut cluster = Cluster::new();
    cluster.files.insert("/big".to_string(), (0u8..100).collect());

    let mut reader = HdfsReader::from_split("/big".to_string(), 10, 20);
    drive_reader_open(&mut cluster, &mut reader).unwrap();
    assert_eq!(reader.read_pos, 10);
    assert_eq!(reader.size, 20);

    let mut buf = [0u8; 64];
    let n = drive_reader_read(&cluster, &mut reader, &mut buf);
    assert_eq!(n, 10);
    assert_eq!(&buf[..10], &(10u8..20).collect::<Vec<u8>>()[..]);
    assert_eq!(drive_reader_read(&cluster, &mut reader, &mut buf), 0);
}
