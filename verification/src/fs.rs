//! The filesystem's state and its callbacks. Every callback is a function
//! from the state and the request to the reply; sending the reply, logging
//! and sleeping are the caller's part.

use std::collections::HashMap;
use vstd::prelude::*;
use vstd::slice::slice_subrange;
use crate::attr::{root_attr, target_attr, FileKind, InodeAttr, Timestamp, ROOT_INO};
use crate::setup::{FaultRegion, REGION_LEN};

verus! {

broadcast use vstd::std_specs::hash::group_hash_axioms;

/// The id that the target file gets: the first one after the root's.
pub const TARGET_INO: u64 = 2;

/// How long the kernel may cache an entry or its attributes, in seconds.
pub const ATTR_TTL_SECS: u64 = 1;

/// How long a flush holds its caller back, in milliseconds.
pub const FLUSH_DELAY_MILLIS: u64 = 50;

/// The name of the target file, `target_file`, as bytes.
pub open spec fn target_name() -> Seq<u8> {
    seq![116u8, 97u8, 114u8, 103u8, 101u8, 116u8, 95u8, 102u8, 105u8, 108u8, 101u8]
}

/// The only error a callback answers with: no such file or directory.
#[derive(Clone, Copy, Debug, PartialEq, Eq, Structural)]
pub enum FsError {
    NotFound,
}

/// Reply to a name lookup.
#[derive(Clone, Copy, Debug, PartialEq, Eq, Structural)]
pub struct EntryReply {
    pub ttl_secs: u64,
    pub attr: InodeAttr,
    pub generation: u64,
}

/// Reply to a request for attributes.
#[derive(Clone, Copy, Debug, PartialEq, Eq, Structural)]
pub struct AttrReply {
    pub ttl_secs: u64,
    pub attr: InodeAttr,
}

/// Reply to an open of a file or a directory.
#[derive(Clone, Copy, Debug, PartialEq, Eq, Structural)]
pub struct OpenReply {
    pub fh: u64,
    pub flags: u32,
}

/// Reply to a read: the bytes to send, borrowed from the region, and
/// whether the read is to be announced as the one that touches the fault page.
#[derive(Clone, Copy, Debug)]
pub struct ReadReply<'a> {
    pub trigger_notice: bool,
    pub data: &'a [u8],
}

/// Reply to a write: the number of bytes reported as written.
#[derive(Clone, Copy, Debug, PartialEq, Eq, Structural)]
pub struct WriteReply {
    pub written: u32,
}

/// Reply to a flush: how long to hold the caller back before acknowledging.
#[derive(Clone, Copy, Debug, PartialEq, Eq, Structural)]
pub struct FlushReply {
    pub delay_millis: u64,
}

/// What creating the target file reports: its id, and 1 or 0 for a
/// notification channel that is or is not there.
#[derive(Clone, Copy, Debug, PartialEq, Eq, Structural)]
pub struct CreatedTarget {
    pub ino: u64,
    pub channel_flag: u8,
}

/// What initialization reports: the created target, and the channel that a
/// monitor is to be started on, if any.
#[derive(Clone, Copy, Debug, PartialEq, Eq, Structural)]
pub struct InitReply {
    pub created: CreatedTarget,
    pub monitor: Option<i32>,
}

/// One entry of a directory listing. `offset` is the resumption offset of
/// the entry after it.
#[derive(Clone, Debug, PartialEq, Eq)]
pub struct DirEntry {
    pub ino: u64,
    pub offset: i64,
    pub kind: FileKind,
    pub name: Vec<u8>,
}

/// A directory entry as a value.
pub struct DirEntryView {
    pub ino: u64,
    pub offset: i64,
    pub kind: FileKind,
    pub name: Seq<u8>,
}

impl View for DirEntry {
    type V = DirEntryView;

    open spec fn view(&self) -> DirEntryView {
        DirEntryView { ino: self.ino, offset: self.offset, kind: self.kind, name: self.name@ }
    }
}

/// The views of a sequence of entries.
pub open spec fn entry_views(entries: Seq<DirEntry>) -> Seq<DirEntryView> {
    entries.map_values(|e: DirEntry| e@)
}

/// The root directory's whole listing: itself, its parent, the target file.
pub open spec fn root_listing() -> Seq<DirEntryView> {
    seq![
        DirEntryView { ino: ROOT_INO, offset: 1, kind: FileKind::Directory, name: seq![46u8] },
        DirEntryView {
            ino: ROOT_INO,
            offset: 2,
            kind: FileKind::Directory,
            name: seq![46u8, 46u8],
        },
        DirEntryView {
            ino: TARGET_INO,
            offset: 3,
            kind: FileKind::RegularFile,
            name: target_name(),
        },
    ]
}

/// The part of the root's listing that a call with resumption offset
/// `offset` emits: what follows the first `offset` entries, and nothing for
/// an offset outside the listing.
pub open spec fn listing_from(offset: i64) -> Seq<DirEntryView> {
    if 0 <= offset <= 3 {
        root_listing().skip(offset as int)
    } else {
        Seq::empty()
    }
}

/// The number of bytes that a read of `size` bytes returns from a region of
/// `region_len` bytes.
pub open spec fn read_len(size: u32, region_len: usize) -> int {
    if size <= region_len {
        size as int
    } else {
        region_len as int
    }
}

/// The filesystem's state as a value.
pub struct FsModel {
    /// The id that the next created file gets.
    pub next_ino: u64,
    /// The inode table.
    pub table: Map<u64, InodeAttr>,
    /// Whether fault injection was asked for at startup.
    pub fault_enabled: bool,
    /// The notification channel.
    pub channel: Option<i32>,
    /// The fault region.
    pub region: FaultRegion,
}

impl FsModel {
    /// The ids handed out to created files so far.
    pub open spec fn created(self, ino: u64) -> bool {
        TARGET_INO <= ino < self.next_ino
    }

    /// The table holds the root directory and the files created so far,
    /// each under its own id; the channel is there exactly if fault
    /// injection is enabled; the region is one page long.
    pub open spec fn wf(self) -> bool {
        &&& self.next_ino >= TARGET_INO
        &&& forall|k: u64| #[trigger]
            self.table.contains_key(k) <==> (k == ROOT_INO || self.created(k))
        &&& forall|k: u64| #[trigger] self.table.contains_key(k) ==> self.table[k].ino == k
        &&& self.table[ROOT_INO].kind == FileKind::Directory
        &&& forall|k: u64|
            self.created(k) ==> (#[trigger] self.table[k]).kind == FileKind::RegularFile
        &&& self.fault_enabled == (self.channel is Some)
        &&& self.region.len == REGION_LEN
    }

    /// The state at startup: only the root directory exists.
    pub open spec fn fresh(now: Timestamp, target_addr: u64, channel: Option<i32>) -> FsModel {
        FsModel {
            next_ino: TARGET_INO,
            table: Map::empty().insert(ROOT_INO, root_attr(now)),
            fault_enabled: channel is Some,
            channel,
            region: FaultRegion { addr: target_addr, len: REGION_LEN },
        }
    }

    /// The state after a target file was created at `now`: it takes the
    /// next id, and nothing else in the table changes.
    pub open spec fn after_create(self, now: Timestamp) -> FsModel
        recommends
            self.next_ino < u64::MAX,
    {
        FsModel {
            next_ino: (self.next_ino + 1) as u64,
            table: self.table.insert(self.next_ino, target_attr(self.next_ino, now)),
            ..self
        }
    }

    /// What creating a target file reports.
    pub open spec fn creation(self) -> CreatedTarget {
        CreatedTarget {
            ino: self.next_ino,
            channel_flag: if self.channel is Some {
                1
            } else {
                0
            },
        }
    }

    /// The channel that initialization wants a monitor started on.
    pub open spec fn monitored(self) -> Option<i32> {
        if self.fault_enabled {
            self.channel
        } else {
            None
        }
    }

    /// The reply to a lookup of `name` in `parent`.
    pub open spec fn lookup(self, parent: u64, name: Seq<u8>) -> Result<EntryReply, FsError> {
        if parent == ROOT_INO && name == target_name() && self.table.contains_key(TARGET_INO) {
            Ok(EntryReply { ttl_secs: ATTR_TTL_SECS, attr: self.table[TARGET_INO], generation: 0 })
        } else {
            Err(FsError::NotFound)
        }
    }

    /// The reply to a request for the attributes of `ino`.
    pub open spec fn getattr(self, ino: u64) -> Result<AttrReply, FsError> {
        if self.table.contains_key(ino) {
            Ok(AttrReply { ttl_secs: ATTR_TTL_SECS, attr: self.table[ino] })
        } else {
            Err(FsError::NotFound)
        }
    }
}

/// The filesystem: the inode table, the fault region and the notification
/// channel, all fixed in shape once startup is over.
pub struct ReentrancyFS {
    next_ino: u64,
    files: HashMap<u64, InodeAttr>,
    fault_enabled: bool,
    uffd: Option<i32>,
    target_addr: u64,
    target_len: usize,
}

impl View for ReentrancyFS {
    type V = FsModel;

    closed spec fn view(&self) -> FsModel {
        FsModel {
            next_ino: self.next_ino,
            table: self.files@,
            fault_enabled: self.fault_enabled,
            channel: self.uffd,
            region: FaultRegion { addr: self.target_addr, len: self.target_len },
        }
    }
}

/// The target file's name.
pub fn target_file_name() -> (name: Vec<u8>)
    ensures
        name@ == target_name(),
{
    let name = vec![116u8, 97u8, 114u8, 103u8, 101u8, 116u8, 95u8, 102u8, 105u8, 108u8, 101u8];
    assert(name@ =~= target_name());
    name
}

/// Tells whether `name` is the target file's name.
pub fn is_target_name(name: &[u8]) -> (same: bool)
    ensures
        same == (name@ == target_name()),
{
    let target = target_file_name();
    if name.len() != target.len() {
        return false;
    }
    let mut i: usize = 0;
    while i < name.len()
        invariant
            i <= name.len(),
            name.len() == target.len(),
            target@ == target_name(),
            forall|j: int| 0 <= j < i ==> name@[j] == target@[j],
        decreases name.len() - i,
    {
        if name[i] != target[i] {
            return false;
        }
        i += 1;
    }
    assert(name@ =~= target@);
    true
}

impl ReentrancyFS {
    /// The filesystem at startup, created at `now`: the table holds the
    /// root directory alone, the region is the page at `target_addr`, and
    /// fault injection is enabled exactly if a channel is given.
    pub fn new(now: Timestamp, target_addr: u64, channel: Option<i32>) -> (fs: ReentrancyFS)
        ensures
            fs@ == FsModel::fresh(now, target_addr, channel),
            fs@.wf(),
    {
        let mut files: HashMap<u64, InodeAttr> = HashMap::new();
        files.insert(ROOT_INO, InodeAttr::root(now));
        ReentrancyFS {
            next_ino: TARGET_INO,
            files,
            fault_enabled: channel.is_some(),
            uffd: channel,
            target_addr,
            target_len: REGION_LEN,
        }
    }

    /// Creates a target file at `now` under the next free id and reports
    /// that id, with 1 or 0 for the channel being there or not.
    pub fn create_target(&mut self, now: Timestamp) -> (created: CreatedTarget)
        requires
            old(self)@.wf(),
            old(self)@.next_ino < u64::MAX,
        ensures
            final(self)@ == old(self)@.after_create(now),
            final(self)@.wf(),
            created == old(self)@.creation(),
    {
        let ino = self.next_ino;
        self.next_ino = ino + 1;
        self.files.insert(ino, InodeAttr::target(ino, now));
        let channel_flag: u8 = if self.uffd.is_some() {
            1
        } else {
            0
        };
        CreatedTarget { ino, channel_flag }
    }

    /// Initialization: creates the target file, and names the channel to
    /// start a monitor on if fault injection is enabled.
    pub fn init(&mut self, now: Timestamp) -> (reply: InitReply)
        requires
            old(self)@.wf(),
            old(self)@.next_ino < u64::MAX,
        ensures
            final(self)@ == old(self)@.after_create(now),
            final(self)@.wf(),
            reply.created == old(self)@.creation(),
            reply.monitor == old(self)@.monitored(),
    {
        let created = self.create_target(now);
        let monitor = if self.fault_enabled {
            self.uffd
        } else {
            None
        };
        InitReply { created, monitor }
    }

    /// Resolves `name` in `parent`: the target file's attributes for its
    /// name in the root, once the file exists; not found for anything else.
    pub fn lookup(&self, parent: u64, name: &[u8]) -> (reply: Result<EntryReply, FsError>)
        ensures
            reply == self@.lookup(parent, name@),
    {
        if parent == ROOT_INO && is_target_name(name) {
            if let Some(attr) = self.files.get(&TARGET_INO) {
                return Ok(EntryReply { ttl_secs: ATTR_TTL_SECS, attr: *attr, generation: 0 });
            }
        }
        Err(FsError::NotFound)
    }

    /// The attributes stored for `ino`, or not found if the table has none.
    pub fn getattr(&self, ino: u64) -> (reply: Result<AttrReply, FsError>)
        ensures
            reply == self@.getattr(ino),
    {
        if let Some(attr) = self.files.get(&ino) {
            Ok(AttrReply { ttl_secs: ATTR_TTL_SECS, attr: *attr })
        } else {
            Err(FsError::NotFound)
        }
    }

    /// Acknowledges an open; no handle state is kept.
    pub fn open(&self, _ino: u64, _flags: i32) -> (reply: Result<OpenReply, FsError>)
        ensures
            reply == Ok::<OpenReply, FsError>(OpenReply { fh: 0, flags: 0 }),
    {
        Ok(OpenReply { fh: 0, flags: 0 })
    }

    /// Acknowledges an open of a directory; no handle state is kept.
    pub fn opendir(&self, _ino: u64, _flags: i32) -> (reply: Result<OpenReply, FsError>)
        ensures
            reply == Ok::<OpenReply, FsError>(OpenReply { fh: 0, flags: 0 }),
    {
        Ok(OpenReply { fh: 0, flags: 0 })
    }

    /// Serves a read from `region`, the bytes of the fault region: its
    /// first `size` bytes, or all of it if `size` is larger, whatever the
    /// offset. A read at offset 0 is announced if fault injection is enabled.
    pub fn read<'a>(&self, offset: i64, size: u32, region: &'a [u8]) -> (reply: ReadReply<'a>)
        requires
            self@.wf(),
            region@.len() == self@.region.len,
        ensures
            reply.trigger_notice == (offset == 0 && self@.fault_enabled),
            reply.data@ == region@.subrange(0, read_len(size, self@.region.len)),
            reply.data@.len() == read_len(size, REGION_LEN),
            reply.data@.len() <= size,
            reply.data@.len() <= REGION_LEN,
    {
        let trigger_notice = offset == 0 && self.fault_enabled;
        let end: usize = if size as usize <= self.target_len {
            size as usize
        } else {
            self.target_len
        };
        ReadReply { trigger_notice, data: slice_subrange(region, 0, end) }
    }

    /// Accepts a write and keeps nothing of it: reports the length of
    /// `data` as written. The report has 32 bits: of a longer length it
    /// carries the low 32 bits.
    pub fn write(&self, data: &[u8]) -> (reply: Result<WriteReply, FsError>)
        ensures
            reply == Ok::<WriteReply, FsError>(WriteReply { written: data@.len() as u32 }),
            data@.len() <= u32::MAX ==> reply->Ok_0.written == data@.len(),
    {
        let written: u32 = #[verifier::truncate]
        (data.len() as u32);
        Ok(WriteReply { written })
    }

    /// Answers a flush: the caller is held back for the fixed delay, then
    /// acknowledged.
    pub fn flush(&self, _ino: u64) -> (reply: Result<FlushReply, FsError>)
        ensures
            reply == Ok::<FlushReply, FsError>(FlushReply { delay_millis: FLUSH_DELAY_MILLIS }),
    {
        Ok(FlushReply { delay_millis: FLUSH_DELAY_MILLIS })
    }

    /// Acknowledges a release; there is nothing to clean up.
    pub fn release(&self, _ino: u64) -> (reply: Result<(), FsError>)
        ensures
            reply == Ok::<(), FsError>(()),
    {
        Ok(())
    }

    /// Acknowledges a release of a directory; there is nothing to clean up.
    pub fn releasedir(&self, _ino: u64) -> (reply: Result<(), FsError>)
        ensures
            reply == Ok::<(), FsError>(()),
    {
        Ok(())
    }

    /// Lists the directory `ino` from the resumption offset `offset`. Only
    /// the root is a directory: its entries are itself, its parent and the
    /// target file, and a call emits those that the offset has not passed.
    pub fn readdir(&self, ino: u64, offset: i64) -> (reply: Result<Vec<DirEntry>, FsError>)
        ensures
            ino == ROOT_INO ==> reply is Ok && entry_views(reply->Ok_0@) == listing_from(offset),
            ino != ROOT_INO ==> reply == Err::<Vec<DirEntry>, FsError>(FsError::NotFound),
    {
        if ino != ROOT_INO {
            return Err(FsError::NotFound);
        }
        let mut entries: Vec<DirEntry> = Vec::new();
        let mut off: i64 = offset;
        if off == 0 {
            entries.push(
                DirEntry { ino: ROOT_INO, offset: 1, kind: FileKind::Directory, name: vec![46u8] },
            );
            off = 1;
        }
        if off == 1 {
            entries.push(
                DirEntry {
                    ino: ROOT_INO,
                    offset: 2,
                    kind: FileKind::Directory,
                    name: vec![46u8, 46u8],
                },
            );
            off = 2;
        }
        if off == 2 {
            entries.push(
                DirEntry {
                    ino: TARGET_INO,
                    offset: 3,
                    kind: FileKind::RegularFile,
                    name: target_file_name(),
                },
            );
        }
        proof {
            let got = entry_views(entries@);
            let want = listing_from(offset);
            assert(got.len() == want.len());
            assert forall|i: int| 0 <= i < got.len() implies got[i] == want[i] by {
                let e = entries@[i];
                assert(got[i] == e@);
                assert(e.name@ =~= want[i].name);
            }
            assert(got =~= want);
        }
        Ok(entries)
    }

    /// Whether fault injection was asked for at startup.
    pub fn fault_enabled(&self) -> (enabled: bool)
        ensures
            enabled == self@.fault_enabled,
    {
        self.fault_enabled
    }

    /// The notification channel, if there is one.
    pub fn channel(&self) -> (channel: Option<i32>)
        ensures
            channel == self@.channel,
    {
        self.uffd
    }

    /// The fault region.
    pub fn region(&self) -> (region: FaultRegion)
        ensures
            region == self@.region,
    {
        FaultRegion { addr: self.target_addr, len: self.target_len }
    }

    /// The id that the next created file gets.
    pub fn next_ino(&self) -> (ino: u64)
        ensures
            ino == self@.next_ino,
    {
        self.next_ino
    }

    /// The number of inodes in the table.
    pub fn inode_count(&self) -> (count: usize)
        ensures
            count == self@.table.len(),
    {
        self.files.len()
    }
}

} // verus!
