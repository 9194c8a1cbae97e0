use reentrancy_fs::attr::{FileKind, InodeAttr, Timestamp, ROOT_INO};
use reentrancy_fs::fs::{
    is_target_name, target_file_name, AttrReply, CreatedTarget, DirEntry, EntryReply, FlushReply,
    FsError, OpenReply, ReentrancyFS, WriteReply, ATTR_TTL_SECS, FLUSH_DELAY_MILLIS, TARGET_INO,
};
use reentrancy_fs::setup::{FaultRegion, REGION_LEN};

fn at(secs: u64) -> Timestamp {
    Timestamp { secs, nanos: 7 }
}

fn plain() -> ReentrancyFS {
    let mut fs = ReentrancyFS::new(at(100), 0x7000_0000, None);
    fs.init(at(200));
    fs
}

fn trapping() -> ReentrancyFS {
    let mut fs = ReentrancyFS::new(at(100), 0x7000_0000, Some(9));
    fs.init(at(200));
    fs
}

fn entry(ino: u64, offset: i64, kind: FileKind, name: &[u8]) -> DirEntry {
    DirEntry { ino, offset, kind, name: name.to_vec() }
}

#[test]
fn root_attributes_are_fixed() {
    let t = at(100);
    let expected = InodeAttr {
        ino: 1,
        size: 0,
        blocks: 0,
        atime: t,
        mtime: t,
        ctime: t,
        crtime: t,
        kind: FileKind::Directory,
        perm: 0o755,
        nlink: 2,
        uid: 0,
        gid: 0,
        rdev: 0,
        flags: 0,
        blksize: 512,
    };
    assert_eq!(InodeAttr::root(t), expected);
    assert_eq!(plain().getattr(ROOT_INO), Ok(AttrReply { ttl_secs: 1, attr: expected }));
}

#[test]
fn target_attributes_are_fixed() {
    let t = at(200);
    let expected = InodeAttr {
        ino: 2,
        size: 4096,
        blocks: 1,
        atime: t,
        mtime: t,
        ctime: t,
        crtime: t,
        kind: FileKind::RegularFile,
        perm: 0o644,
        nlink: 1,
        uid: 0,
        gid: 0,
        rdev: 0,
        flags: 0,
        blksize: 4096,
    };
    assert_eq!(InodeAttr::target(2, t), expected);
    assert_eq!(plain().getattr(TARGET_INO), Ok(AttrReply { ttl_secs: ATTR_TTL_SECS, attr: expected }));
}

#[test]
fn getattr_of_unknown_id_is_not_found() {
    let fs = plain();
    for ino in [0u64, 3, 4, 100, u64::MAX] {
        assert_eq!(fs.getattr(ino), Err(FsError::NotFound));
    }
}

#[test]
fn getattr_of_target_before_init_is_not_found() {
    let fs = ReentrancyFS::new(at(1), 0, None);
    assert_eq!(fs.getattr(2), Err(FsError::NotFound));
    assert!(fs.getattr(1).is_ok());
}

#[test]
fn target_name_is_target_file() {
    assert_eq!(target_file_name(), b"target_file".to_vec());
    assert!(is_target_name(b"target_file"));
    assert!(!is_target_name(b"target_fil"));
    assert!(!is_target_name(b"target_file2"));
    assert!(!is_target_name(b"target_filf"));
    assert!(!is_target_name(b"Target_file"));
    assert!(!is_target_name(b""));
}

#[test]
fn lookup_finds_target_in_root() {
    let fs = plain();
    let attr = InodeAttr::target(2, at(200));
    assert_eq!(
        fs.lookup(1, b"target_file"),
        Ok(EntryReply { ttl_secs: 1, attr, generation: 0 })
    );
}

#[test]
fn lookup_of_anything_else_is_not_found() {
    let fs = plain();
    assert_eq!(fs.lookup(2, b"target_file"), Err(FsError::NotFound));
    assert_eq!(fs.lookup(0, b"target_file"), Err(FsError::NotFound));
    assert_eq!(fs.lookup(1, b"target"), Err(FsError::NotFound));
    assert_eq!(fs.lookup(1, b"."), Err(FsError::NotFound));
    assert_eq!(fs.lookup(1, b""), Err(FsError::NotFound));
    assert_eq!(fs.lookup(1, b"target_file\0"), Err(FsError::NotFound));
    assert_eq!(fs.lookup(1, &[0xff, 0xfe]), Err(FsError::NotFound));
}

#[test]
fn lookup_before_init_is_not_found() {
    let fs = ReentrancyFS::new(at(1), 0, Some(4));
    assert_eq!(fs.lookup(1, b"target_file"), Err(FsError::NotFound));
}

#[test]
fn readdir_from_start_lists_three_entries() {
    let fs = plain();
    assert_eq!(
        fs.readdir(1, 0),
        Ok(vec![
            entry(1, 1, FileKind::Directory, b"."),
            entry(1, 2, FileKind::Directory, b".."),
            entry(2, 3, FileKind::RegularFile, b"target_file"),
        ])
    );
}

#[test]
fn readdir_resumes_after_consumed_entries() {
    let fs = plain();
    assert_eq!(
        fs.readdir(1, 1),
        Ok(vec![
            entry(1, 2, FileKind::Directory, b".."),
            entry(2, 3, FileKind::RegularFile, b"target_file"),
        ])
    );
    assert_eq!(
        fs.readdir(1, 2),
        Ok(vec![entry(2, 3, FileKind::RegularFile, b"target_file")])
    );
}

#[test]
fn readdir_past_the_end_is_empty() {
    let fs = plain();
    assert_eq!(fs.readdir(1, 3), Ok(vec![]));
    assert_eq!(fs.readdir(1, 4), Ok(vec![]));
    assert_eq!(fs.readdir(1, i64::MAX), Ok(vec![]));
    assert_eq!(fs.readdir(1, -1), Ok(vec![]));
    assert_eq!(fs.readdir(1, i64::MIN), Ok(vec![]));
}

#[test]
fn readdir_of_non_root_is_not_found() {
    let fs = plain();
    assert_eq!(fs.readdir(2, 0), Err(FsError::NotFound));
    assert_eq!(fs.readdir(0, 0), Err(FsError::NotFound));
    assert_eq!(fs.readdir(3, 2), Err(FsError::NotFound));
    assert_eq!(fs.readdir(u64::MAX, 5), Err(FsError::NotFound));
}

#[test]
fn read_is_capped_at_one_page() {
    let fs = plain();
    let region = vec![0u8; 4096];
    let reply = fs.read(0, 1_000_000, &region);
    assert_eq!(reply.data.len(), 4096);
    assert!(!reply.trigger_notice);
    assert_eq!(fs.read(0, u32::MAX, &region).data.len(), 4096);
    assert_eq!(fs.read(0, 4096, &region).data.len(), 4096);
    assert_eq!(fs.read(0, 4097, &region).data.len(), 4096);
}

#[test]
fn read_returns_prefix_of_region() {
    let fs = plain();
    let mut region = vec![0u8; 4096];
    for (i, b) in region.iter_mut().enumerate() {
        *b = (i % 251) as u8;
    }
    assert_eq!(fs.read(0, 10, &region).data, &region[0..10]);
    assert_eq!(fs.read(0, 0, &region).data.len(), 0);
    assert_eq!(fs.read(0, 4095, &region).data, &region[0..4095]);
    assert_eq!(fs.read(8192, 16, &region).data, &region[0..16]);
    assert_eq!(fs.read(-5, 1, &region).data, &region[0..1]);
}

#[test]
fn read_at_zero_is_announced_only_when_enabled() {
    let region = vec![0u8; 4096];
    assert!(trapping().read(0, 16, &region).trigger_notice);
    assert!(!trapping().read(1, 16, &region).trigger_notice);
    assert!(!trapping().read(-1, 16, &region).trigger_notice);
    assert!(!plain().read(0, 16, &region).trigger_notice);
    assert!(!plain().read(4096, 16, &region).trigger_notice);
}

#[test]
fn write_reports_input_length() {
    let fs = plain();
    assert_eq!(fs.write(b""), Ok(WriteReply { written: 0 }));
    assert_eq!(fs.write(b"x"), Ok(WriteReply { written: 1 }));
    assert_eq!(fs.write(&vec![5u8; 70_000]), Ok(WriteReply { written: 70_000 }));
    assert_eq!(fs.getattr(2), Ok(AttrReply { ttl_secs: 1, attr: InodeAttr::target(2, at(200)) }));
}

#[test]
fn flush_asks_for_fixed_delay() {
    assert_eq!(FLUSH_DELAY_MILLIS, 50);
    assert_eq!(plain().flush(2), Ok(FlushReply { delay_millis: 50 }));
    assert_eq!(trapping().flush(77), Ok(FlushReply { delay_millis: 50 }));
}

#[test]
fn open_and_release_always_succeed() {
    let fs = plain();
    assert_eq!(fs.open(2, 0), Ok(OpenReply { fh: 0, flags: 0 }));
    assert_eq!(fs.open(99, -1), Ok(OpenReply { fh: 0, flags: 0 }));
    assert_eq!(fs.opendir(1, 0), Ok(OpenReply { fh: 0, flags: 0 }));
    assert_eq!(fs.opendir(5, 3), Ok(OpenReply { fh: 0, flags: 0 }));
    assert_eq!(fs.release(2), Ok(()));
    assert_eq!(fs.releasedir(1), Ok(()));
}

#[test]
fn init_without_channel_starts_no_monitor() {
    let mut fs = ReentrancyFS::new(at(1), 0x1000, None);
    assert!(!fs.fault_enabled());
    assert_eq!(fs.channel(), None);
    let reply = fs.init(at(2));
    assert_eq!(reply.created, CreatedTarget { ino: 2, channel_flag: 0 });
    assert_eq!(reply.monitor, None);
}

#[test]
fn init_with_channel_starts_monitor_on_it() {
    let mut fs = ReentrancyFS::new(at(1), 0x1000, Some(5));
    assert!(fs.fault_enabled());
    assert_eq!(fs.channel(), Some(5));
    let reply = fs.init(at(2));
    assert_eq!(reply.created, CreatedTarget { ino: 2, channel_flag: 1 });
    assert_eq!(reply.monitor, Some(5));
}

#[test]
fn single_init_gives_two_inodes() {
    let mut fs = ReentrancyFS::new(at(1), 0x1000, None);
    assert_eq!(fs.inode_count(), 1);
    fs.init(at(2));
    assert_eq!(fs.inode_count(), 2);
    assert_eq!(fs.inode_count(), 2);
}

#[test]
fn create_target_hands_out_fresh_ids() {
    let mut fs = ReentrancyFS::new(at(1), 0x1000, None);
    assert_eq!(fs.create_target(at(2)).ino, 2);
    assert_eq!(fs.create_target(at(3)).ino, 3);
    assert_eq!(fs.inode_count(), 3);
    assert_eq!(fs.getattr(2), Ok(AttrReply { ttl_secs: 1, attr: InodeAttr::target(2, at(2)) }));
    assert_eq!(fs.getattr(3), Ok(AttrReply { ttl_secs: 1, attr: InodeAttr::target(3, at(3)) }));
    assert_eq!(fs.getattr(4), Err(FsError::NotFound));
}

#[test]
fn region_is_one_page_at_given_address() {
    let fs = ReentrancyFS::new(at(1), 0xdead_0000, None);
    assert_eq!(fs.region(), FaultRegion { addr: 0xdead_0000, len: 4096 });
    assert_eq!(REGION_LEN, 4096);
}
