//! What holds of the state machines and of the filesystem's replies, proved
//! from their definitions.

use vstd::prelude::*;
use crate::attr::{FileKind, Timestamp, ROOT_INO};
use crate::fs::{
    listing_from, read_len, root_listing, target_name, AttrReply, EntryReply, FsError, FsModel,
    ATTR_TTL_SECS, TARGET_INO,
};
use crate::ioctl::{UFFDIO_REGISTER, UFFDIO_REGISTER_MODE_MISSING};
use crate::monitor::{
    Monitor, MonitorAction, MonitorEvent, Phase, EVENT_BUF_LEN, POLL_INTERVAL_MILLIS,
};
use crate::setup::{FaultRegion, SetupAction, SetupEvent, SetupState, REGION_LEN};

verus! {

/// The table answers for the root and for the files created so far, and
/// for no other id; what it answers with carries the id asked for.
pub proof fn getattr_found_iff_known(m: FsModel, ino: u64)
    requires
        m.wf(),
    ensures
        m.getattr(ino) is Ok <==> (ino == ROOT_INO || m.created(ino)),
        m.getattr(ino) is Ok ==> m.getattr(ino)->Ok_0.attr.ino == ino,
        m.getattr(ino) is Err ==> m.getattr(ino) == Err::<AttrReply, FsError>(
            FsError::NotFound,
        ),
{
}

/// Once the target file has been created, and no other file after it, every
/// id but the root's and the target's is not found.
pub proof fn getattr_unknown_is_not_found(m: FsModel, ino: u64)
    requires
        m.wf(),
        m.next_ino == TARGET_INO + 1,
        ino != ROOT_INO,
        ino != TARGET_INO,
    ensures
        m.getattr(ino) == Err::<AttrReply, FsError>(FsError::NotFound),
{
}

/// Once the target file exists, a lookup finds it exactly for its name in
/// the root directory, and answers with the attributes the table holds for
/// it; any other pair of parent and name is not found.
pub proof fn lookup_found_iff_target(m: FsModel, parent: u64, name: Seq<u8>)
    requires
        m.wf(),
        m.next_ino > TARGET_INO,
    ensures
        m.lookup(parent, name) is Ok <==> (parent == ROOT_INO && name == target_name()),
        m.lookup(parent, name) is Ok ==> {
            let reply = m.lookup(parent, name)->Ok_0;
            &&& reply.attr == m.table[TARGET_INO]
            &&& reply.attr.ino == TARGET_INO
            &&& reply.attr.kind == FileKind::RegularFile
            &&& reply.ttl_secs == ATTR_TTL_SECS
        },
        m.lookup(parent, name) is Err ==> m.lookup(parent, name) == Err::<
            EntryReply,
            FsError,
        >(FsError::NotFound),
{
    assert(m.created(TARGET_INO));
}

/// Before the target file is created, every lookup is not found.
pub proof fn lookup_before_init_is_not_found(
    now: Timestamp,
    target_addr: u64,
    channel: Option<i32>,
    parent: u64,
    name: Seq<u8>,
)
    ensures
        FsModel::fresh(now, target_addr, channel).lookup(parent, name) == Err::<
            EntryReply,
            FsError,
        >(FsError::NotFound),
{
}

/// A listing of the root from offset 0 is the whole listing: the directory
/// itself, its parent, the target file, in this order. From offset 2 it is
/// the target file alone. From any offset past the listing, or below 0, it
/// is empty. In between, it is what follows the entries already emitted.
pub proof fn listing_by_offset(offset: i64)
    ensures
        listing_from(0) == root_listing(),
        root_listing().len() == 3,
        root_listing()[0].name == seq![46u8],
        root_listing()[1].name == seq![46u8, 46u8],
        root_listing()[2].name == target_name(),
        listing_from(2) == seq![root_listing()[2]],
        offset >= 3 || offset < 0 ==> listing_from(offset).len() == 0,
        0 <= offset <= 3 ==> listing_from(offset).len() == 3 - offset,
        forall|i: int|
            0 <= i < listing_from(offset).len() ==> listing_from(offset)[i] == root_listing()[
                offset + i],
{
    assert(listing_from(0) =~= root_listing());
    assert(listing_from(2) =~= seq![root_listing()[2]]);
}

/// Every entry of the root's listing carries the resumption offset of the
/// entry after it, so that a call that resumes there emits no entry twice.
pub proof fn listing_resumes_after_entry(i: int)
    requires
        0 <= i < 3,
    ensures
        root_listing()[i].offset == i + 1,
        listing_from(root_listing()[i].offset) == root_listing().skip(i + 1),
{
}

/// A read returns the smaller of the requested size and the region's
/// length: never more than was asked for, never more than one page.
pub proof fn read_len_is_min(size: u32, region_len: usize)
    ensures
        read_len(size, region_len) <= size,
        read_len(size, region_len) <= region_len,
        read_len(size, region_len) == size || read_len(size, region_len) == region_len,
        read_len(size, REGION_LEN) <= 4096,
        size >= 4096 ==> read_len(size, REGION_LEN) == 4096,
{
}

/// The startup state has the root directory alone; creating the target
/// file once makes the table hold exactly two inodes, the root and the
/// target under the id reserved for it.
pub proof fn single_init_gives_two_inodes(
    created_at: Timestamp,
    target_addr: u64,
    channel: Option<i32>,
    now: Timestamp,
)
    ensures
        FsModel::fresh(created_at, target_addr, channel).wf(),
        FsModel::fresh(created_at, target_addr, channel).table.len() == 1,
        ({
            let m = FsModel::fresh(created_at, target_addr, channel).after_create(now);
            &&& m.wf()
            &&& m.table.dom() == set![ROOT_INO, TARGET_INO]
            &&& m.table.len() == 2
            &&& m.next_ino == TARGET_INO + 1
        }),
{
    let m0 = FsModel::fresh(created_at, target_addr, channel);
    let m1 = m0.after_create(now);
    assert(m0.table.dom() =~= set![ROOT_INO]);
    assert(m1.table.dom() =~= set![ROOT_INO, TARGET_INO]);
    assert(set![ROOT_INO].len() == 1);
    assert(set![ROOT_INO, TARGET_INO].len() == 2);
}

/// The table only grows: creating a file keeps the state well formed, adds
/// one inode under an id that was free, and changes no entry that was there.
pub proof fn create_appends(m: FsModel, now: Timestamp)
    requires
        m.wf(),
        m.next_ino < u64::MAX,
    ensures
        m.after_create(now).wf(),
        !m.table.contains_key(m.next_ino),
        m.after_create(now).table.contains_key(m.next_ino),
        forall|k: u64|
            m.table.contains_key(k) ==> m.after_create(now).table.contains_key(k)
                && m.after_create(now).table[k] == m.table[k],
        m.after_create(now).region == m.region,
        m.after_create(now).channel == m.channel,
        m.after_create(now).fault_enabled == m.fault_enabled,
{
    let n = m.after_create(now);
    assert forall|k: u64| #[trigger] n.table.contains_key(k) <==> (k == ROOT_INO || n.created(
        k,
    )) by {
        assert(m.table.contains_key(k) <==> (k == ROOT_INO || m.created(k)));
    }
    assert forall|k: u64| n.created(k) implies (#[trigger] n.table[k]).kind
        == FileKind::RegularFile by {
        if k != m.next_ino {
            assert(m.created(k));
        }
    }
}

/// The region of a well-formed state is a whole number of pages.
pub proof fn region_is_page_aligned(m: FsModel)
    requires
        m.wf(),
    ensures
        m.region.page_aligned(),
{
}

/// Fault injection never asked for: startup maps the region and is then
/// complete without a channel. No channel is opened on the way.
pub proof fn absent_toggle_skips_channel(addr: u64)
    ensures
        ({
            let mapping = SetupState::Start.next(SetupEvent::Toggle { present: false });
            let ready = mapping.next(SetupEvent::Mapped { addr: Some(addr) });
            &&& mapping.action() == (SetupAction::MapRegion {
                len: REGION_LEN,
                readable: true,
                writable: true,
                private: true,
                anonymous: true,
            })
            &&& ready == (SetupState::Ready {
                region: FaultRegion { addr, len: REGION_LEN },
                channel: None,
            })
            &&& ready.action() == (SetupAction::Finish {
                region: FaultRegion { addr, len: REGION_LEN },
                channel: None,
            })
        }),
{
}

/// A state that startup can be in when fault injection was not asked for.
pub open spec fn without_channel(state: SetupState) -> bool {
    match state {
        SetupState::Mapping { enabled } => !enabled,
        SetupState::Ready { channel, .. } => channel is None,
        SetupState::Failed { .. } => true,
        _ => false,
    }
}

/// With the toggle absent, startup stays among the states without a
/// channel whatever happens, and none of them asks for the channel to be
/// opened, for a handshake or for a registration.
pub proof fn absent_toggle_never_opens_channel(state: SetupState, event: SetupEvent)
    requires
        without_channel(state),
    ensures
        without_channel(SetupState::Start.next(SetupEvent::Toggle { present: false })),
        without_channel(state.next(event)),
        !(state.action() is OpenChannel),
        !(state.action() is Handshake),
        !(state.action() is Register),
{
}

/// With the toggle absent, no sequence of outcomes, expected or not, makes
/// startup ask for the channel: not to open it, not for a handshake, not for
/// a registration. If startup completes, it completes without a channel.
pub proof fn absent_toggle_never_reaches_channel(events: Seq<SetupEvent>)
    requires
        events.len() > 0,
        events[0] == (SetupEvent::Toggle { present: false }),
    ensures
        without_channel(SetupState::Start.after(events)),
        !(SetupState::Start.after(events).action() is OpenChannel),
        !(SetupState::Start.after(events).action() is Handshake),
        !(SetupState::Start.after(events).action() is Register),
        SetupState::Start.after(events) matches SetupState::Ready { channel, .. }
            ==> channel is None,
    decreases events.len(),
{
    let start = SetupState::Start;
    if events.len() == 1 {
        assert(events.drop_last().len() == 0);
        assert(start.after(events.drop_last()) == start);
        assert(start.after(events) == start.next(events.last()));
    } else {
        let before = events.drop_last();
        assert(before[0] == events[0]);
        absent_toggle_never_reaches_channel(before);
        absent_toggle_never_opens_channel(start.after(before), events.last());
    }
}

/// Startup completes with a channel only if the toggle was read as
/// present: without such an outcome among `events`, no channel is opened.
pub proof fn channel_needs_present_toggle(events: Seq<SetupEvent>)
    requires
        forall|i: int|
            0 <= i < events.len() ==> events[i] != (SetupEvent::Toggle { present: true }),
    ensures
        SetupState::Start.after(events) is Start || without_channel(
            SetupState::Start.after(events),
        ),
    decreases events.len(),
{
    if events.len() > 0 {
        let before = events.drop_last();
        channel_needs_present_toggle(before);
    }
}

/// The region that a state of startup carries, if it carries one.
pub open spec fn region_of(state: SetupState) -> Option<FaultRegion> {
    match state {
        SetupState::Opening { region } => Some(region),
        SetupState::Handshaking { region, .. } => Some(region),
        SetupState::Registering { region, .. } => Some(region),
        SetupState::Ready { region, .. } => Some(region),
        _ => None,
    }
}

/// Whatever the outcomes, the region that startup carries is one page
/// long, so a whole number of pages, and a filesystem built on its address
/// serves exactly that region.
pub proof fn startup_region_is_one_page(
    events: Seq<SetupEvent>,
    now: Timestamp,
    channel: Option<i32>,
)
    ensures
        region_of(SetupState::Start.after(events)) matches Some(region) ==> {
            &&& region.len == REGION_LEN
            &&& region.page_aligned()
            &&& FsModel::fresh(now, region.addr, channel).region == region
        },
    decreases events.len(),
{
    if events.len() > 0 {
        startup_region_is_one_page(events.drop_last(), now, channel);
    }
}

/// The monitor keeps to its channel and always has a next step: whatever
/// the outcomes, it never stops and never polls another descriptor.
pub proof fn monitor_keeps_channel(m: Monitor, events: Seq<MonitorEvent>)
    ensures
        m.after(events).channel == m.channel,
        m.after(events).action() is Poll ==> m.after(events).action()->Poll_fd == m.channel,
    decreases events.len(),
{
    if events.len() > 0 {
        monitor_keeps_channel(m, events.drop_last());
    }
}

/// A filesystem built without a channel has fault injection disabled:
/// initialization reports 0 for the channel and starts no monitor, then and
/// after any number of created files.
pub proof fn no_channel_no_monitor(m: FsModel, now: Timestamp)
    requires
        m.wf(),
        m.channel is None,
    ensures
        !m.fault_enabled,
        m.creation().channel_flag == 0,
        m.monitored() is None,
        m.after_create(now).channel is None,
        m.after_create(now).monitored() is None,
{
}

/// A filesystem built with a channel has fault injection enabled:
/// initialization reports 1 for the channel and starts the monitor on it.
pub proof fn channel_is_monitored(m: FsModel)
    requires
        m.wf(),
        m.channel is Some,
    ensures
        m.fault_enabled,
        m.creation().channel_flag == 1,
        m.monitored() == m.channel,
{
}

/// Fault injection asked for and every call succeeding: the channel is
/// opened, then the handshake is sent on it, then the region is registered
/// on it for missing-page notifications alone, and startup completes with
/// that channel.
pub proof fn present_toggle_registers_region(addr: u64, opened: i64, shaken: i64, registered: i64)
    requires
        0 <= opened <= i32::MAX,
        shaken >= 0,
        registered >= 0,
    ensures
        ({
            let region = FaultRegion { addr, len: REGION_LEN };
            let fd = opened as i32;
            let mapping = SetupState::Start.next(SetupEvent::Toggle { present: true });
            let opening = mapping.next(SetupEvent::Mapped { addr: Some(addr) });
            let handshaking = opening.next(SetupEvent::Returned { value: opened });
            let registering = handshaking.next(SetupEvent::Returned { value: shaken });
            let ready = registering.next(SetupEvent::Returned { value: registered });
            &&& opening.action() == (SetupAction::OpenChannel {
                nonblocking: true,
                close_on_exec: true,
            })
            &&& handshaking.action() is Handshake
            &&& handshaking.action()->Handshake_fd == fd
            &&& registering.action() matches SetupAction::Register { fd: on, request, record }
                && on == fd && request == UFFDIO_REGISTER && record.range.start == addr
                && record.range.len == REGION_LEN && record.mode == UFFDIO_REGISTER_MODE_MISSING
            &&& ready == (SetupState::Ready { region, channel: Some(fd) })
        }),
{
}

/// The order of the phases: a handshake is only ever sent on a channel
/// that was just opened, a registration only after a handshake that
/// succeeded, and startup completes with a channel only after a
/// registration that succeeded.
pub proof fn phases_follow_in_order(state: SetupState, event: SetupEvent)
    requires
        state.next(event) != state,
    ensures
        state.next(event) is Handshaking ==> state is Opening,
        state.next(event) is Registering ==> state is Handshaking,
        state.next(event) matches SetupState::Ready { channel: Some(_), .. } ==> state
            is Registering,
        state.next(event) is Opening ==> state matches SetupState::Mapping { enabled: true },
{
}

/// Any failed call ends startup: the state is final, and the caller is
/// told to stop with the error of the phase that failed.
pub proof fn failure_is_fatal(state: SetupState, event: SetupEvent)
    requires
        state.expects(event),
        event matches SetupEvent::Returned { value } && value < 0 || event
            == (SetupEvent::Mapped { addr: None }),
    ensures
        state.next(event) is Failed,
        state.next(event).action() is Abort,
        state.next(event).is_final(),
{
}

/// Once startup has ended, nothing changes its state.
pub proof fn final_state_is_kept(state: SetupState, event: SetupEvent)
    requires
        state.is_final(),
    ensures
        state.next(event) == state,
{
}

/// A poll that read anything makes the monitor announce the fault and
/// open the mapping list; one that read nothing, or failed, leads to the
/// pause and leaves the mapping list alone.
pub proof fn poll_decides_trap(m: Monitor, value: i64)
    requires
        m.phase == Phase::Polling,
    ensures
        value > 0 <==> m.next(MonitorEvent::Returned { value }).action() == MonitorAction::OpenMaps,
        value <= 0 <==> m.next(MonitorEvent::Returned { value }).action() == (MonitorAction::Sleep {
            millis: POLL_INTERVAL_MILLIS,
        }),
{
}

/// The monitor never ends: whatever was read, it is back at a poll of the
/// same channel after at most five steps, with a pause just before it.
pub proof fn monitor_returns_to_poll(m: Monitor, polled: i64, opened: i64)
    requires
        m.phase == Phase::Polling,
    ensures
        ({
            let done = MonitorEvent::Completed;
            let after_poll = m.next(MonitorEvent::Returned { value: polled });
            let after_open = after_poll.next(MonitorEvent::Returned { value: opened });
            &&& polled <= 0 ==> after_poll.phase == Phase::Sleeping && after_poll.next(done) == m
            &&& polled > 0 && opened < 0 ==> after_open.phase == Phase::Reporting
                && after_open.next(done).phase == Phase::Sleeping && after_open.next(done).next(
                done,
            ) == m
            &&& polled > 0 && opened >= 0 ==> after_open.action() is Drain && after_open.next(
                done,
            ).phase == Phase::Reporting && after_open.next(done).next(done).next(done) == m
        }),
        m.action() == (MonitorAction::Poll { fd: m.channel, len: EVENT_BUF_LEN }),
{
}

} // verus!
