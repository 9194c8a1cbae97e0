//! The fault monitor: poll the notification channel, and on every event hold
//! the kernel's memory-mapping locks for a while by reading the process's
//! own mapping list to its end. The caller performs each step; this module
//! decides the next one. The monitor has no final state: it runs until the
//! process ends.

use vstd::prelude::*;

verus! {

/// Size of the buffer that one poll reads into, in bytes.
pub const EVENT_BUF_LEN: usize = 32;

/// Pause between two polls, in milliseconds.
pub const POLL_INTERVAL_MILLIS: u64 = 10;

/// What the monitor is waiting for.
#[derive(Clone, Copy, Debug, PartialEq, Eq, Structural)]
pub enum Phase {
    /// A read on the channel.
    Polling,
    /// The mapping list being opened, after an event was read.
    Opening,
    /// The mapping list, open on `maps`, being read to its end.
    Draining { maps: i32 },
    /// The hold time being reported.
    Reporting,
    /// The pause before the next poll.
    Sleeping,
}

/// The monitor of the channel `channel`.
#[derive(Clone, Copy, Debug, PartialEq, Eq, Structural)]
pub struct Monitor {
    pub channel: i32,
    pub phase: Phase,
}

/// The outcome of the step taken last.
#[derive(Clone, Copy, Debug, PartialEq, Eq, Structural)]
pub enum MonitorEvent {
    /// A system call returned `value`.
    Returned { value: i64 },
    /// A step that returns nothing has ended.
    Completed,
}

/// What the caller is to do next.
#[derive(Clone, Copy, Debug, PartialEq, Eq, Structural)]
pub enum MonitorAction {
    /// Read up to `len` bytes from `fd`, without blocking.
    Poll { fd: i32, len: usize },
    /// Announce the fault, start the clock and open the process's mapping
    /// list for reading.
    OpenMaps,
    /// Read `fd` to its end and close it.
    Drain { fd: i32 },
    /// Report the time since the clock was started.
    Report,
    /// Pause for `millis` milliseconds.
    Sleep { millis: u64 },
}

impl Monitor {
    /// The monitor after `event`. A poll that read anything, a full event or
    /// part of one, starts the blocking read of the mapping list; one that
    /// read nothing or failed goes to the pause. If the list cannot be
    /// opened, the hold time is reported all the same. An event that the
    /// phase does not wait for changes nothing.
    pub open spec fn next(self, event: MonitorEvent) -> Monitor {
        let phase = match (self.phase, event) {
            (Phase::Polling, MonitorEvent::Returned { value }) => if value > 0 {
                Phase::Opening
            } else {
                Phase::Sleeping
            },
            (Phase::Opening, MonitorEvent::Returned { value }) => if value >= 0 {
                Phase::Draining { maps: value as i32 }
            } else {
                Phase::Reporting
            },
            (Phase::Draining { .. }, MonitorEvent::Completed) => Phase::Reporting,
            (Phase::Reporting, MonitorEvent::Completed) => Phase::Sleeping,
            (Phase::Sleeping, MonitorEvent::Completed) => Phase::Polling,
            _ => self.phase,
        };
        Monitor { channel: self.channel, phase }
    }

    /// The monitor after each of `events` in turn.
    pub open spec fn after(self, events: Seq<MonitorEvent>) -> Monitor
        decreases events.len(),
    {
        if events.len() == 0 {
            self
        } else {
            self.after(events.drop_last()).next(events.last())
        }
    }

    /// What the monitor asks of the caller.
    pub open spec fn action(self) -> MonitorAction {
        match self.phase {
            Phase::Polling => MonitorAction::Poll { fd: self.channel, len: EVENT_BUF_LEN },
            Phase::Opening => MonitorAction::OpenMaps,
            Phase::Draining { maps } => MonitorAction::Drain { fd: maps },
            Phase::Reporting => MonitorAction::Report,
            Phase::Sleeping => MonitorAction::Sleep { millis: POLL_INTERVAL_MILLIS },
        }
    }

    /// A monitor of `channel`, about to poll it.
    pub fn new(channel: i32) -> (monitor: Monitor)
        ensures
            monitor == (Monitor { channel, phase: Phase::Polling }),
    {
        Monitor { channel, phase: Phase::Polling }
    }

    /// What the monitor asks of the caller.
    pub fn pending(&self) -> (action: MonitorAction)
        ensures
            action == self.action(),
    {
        match self.phase {
            Phase::Polling => MonitorAction::Poll { fd: self.channel, len: EVENT_BUF_LEN },
            Phase::Opening => MonitorAction::OpenMaps,
            Phase::Draining { maps } => MonitorAction::Drain { fd: maps },
            Phase::Reporting => MonitorAction::Report,
            Phase::Sleeping => MonitorAction::Sleep { millis: POLL_INTERVAL_MILLIS },
        }
    }

    /// Takes the outcome of the last step and returns the monitor's new
    /// state with what it asks of the caller.
    pub fn step(self, event: MonitorEvent) -> (out: (Monitor, MonitorAction))
        ensures
            out.0 == self.next(event),
            out.1 == self.next(event).action(),
    {
        let phase = match (self.phase, event) {
            (Phase::Polling, MonitorEvent::Returned { value }) => {
                if value > 0 {
                    Phase::Opening
                } else {
                    Phase::Sleeping
                }
            },
            (Phase::Opening, MonitorEvent::Returned { value }) => {
                if value >= 0 {
                    Phase::Draining { maps: low_word(value) }
                } else {
                    Phase::Reporting
                }
            },
            (Phase::Draining { .. }, MonitorEvent::Completed) => Phase::Reporting,
            (Phase::Reporting, MonitorEvent::Completed) => Phase::Sleeping,
            (Phase::Sleeping, MonitorEvent::Completed) => Phase::Polling,
            _ => self.phase,
        };
        let monitor = Monitor { channel: self.channel, phase };
        let action = monitor.pending();
        (monitor, action)
    }
}

/// The path of the process's mapping list.
pub fn maps_path() -> (path: &'static str)
    ensures
        path@ == "/proc/self/maps"@,
{
    "/proc/self/maps"
}

/// The descriptor that a system call's return value carries: its low 32 bits.
pub(crate) fn low_word(value: i64) -> (fd: i32)
    ensures
        fd == value as i32,
{
    #[verifier::truncate]
    (value as i32)
}

} // verus!
