//! Startup of the fault apparatus: map the region, then, only if fault
//! injection was asked for, open the notification channel, negotiate the
//! interface version and register the region. Each step is taken by the
//! caller; this module decides the next step from the outcome of the last one.

use vstd::prelude::*;
use crate::monitor::low_word;
use crate::ioctl::{
    api_record, new_api_record, new_register_record, register_record, ApiRecord, RegisterRecord,
    UFFDIO_API, UFFDIO_REGISTER,
};

verus! {

/// Length of the fault region, in bytes: exactly one page.
pub const REGION_LEN: usize = 4096;

/// The size of a page on the platforms this runs on.
pub const PAGE_SIZE: usize = 4096;

/// Base address and length of the anonymous mapping that faults are taken on.
#[derive(Clone, Copy, Debug, PartialEq, Eq, Structural)]
pub struct FaultRegion {
    pub addr: u64,
    pub len: usize,
}

impl FaultRegion {
    /// The length is a whole, positive number of pages; registration fails
    /// on any other.
    pub open spec fn page_aligned(self) -> bool {
        self.len > 0 && self.len % PAGE_SIZE == 0
    }
}

/// Why startup was given up. Each of these is fatal.
#[derive(Clone, Copy, Debug, PartialEq, Eq, Structural)]
pub enum SetupError {
    /// The region could not be mapped.
    MapFailed,
    /// The notification channel could not be created.
    ChannelFailed,
    /// The kernel refused the interface version.
    HandshakeFailed,
    /// The kernel refused to register the region.
    RegisterFailed,
}

impl SetupError {
    /// The diagnostic that the process stops with.
    pub open spec fn diagnostic(self) -> Seq<char> {
        match self {
            SetupError::MapFailed => "mmap failed"@,
            SetupError::ChannelFailed => "UFFD creation failed"@,
            SetupError::HandshakeFailed => "UFFD API handshake failed"@,
            SetupError::RegisterFailed => "UFFD register failed"@,
        }
    }

    /// Whether the diagnostic is followed by the system's own description
    /// of the error: for every failure on the channel, not for the mapping.
    pub open spec fn names_os_error(self) -> bool {
        !(self is MapFailed)
    }

    /// The diagnostic that the process stops with.
    pub fn message(&self) -> (text: &'static str)
        ensures
            text@ == self.diagnostic(),
    {
        match self {
            SetupError::MapFailed => "mmap failed",
            SetupError::ChannelFailed => "UFFD creation failed",
            SetupError::HandshakeFailed => "UFFD API handshake failed",
            SetupError::RegisterFailed => "UFFD register failed",
        }
    }

    /// Tells whether the system's description of the error is to follow
    /// the diagnostic.
    pub fn with_os_error(&self) -> (follows: bool)
        ensures
            follows == self.names_os_error(),
    {
        !matches!(self, SetupError::MapFailed)
    }
}

/// Where startup stands.
#[derive(Clone, Copy, Debug, PartialEq, Eq, Structural)]
pub enum SetupState {
    /// Nothing was done yet; the toggle has not been read.
    Start,
    /// The mapping was asked for.
    Mapping { enabled: bool },
    /// The channel was asked for.
    Opening { region: FaultRegion },
    /// The handshake was sent on `fd`.
    Handshaking { region: FaultRegion, fd: i32 },
    /// The registration was sent on `fd`.
    Registering { region: FaultRegion, fd: i32 },
    /// Startup is complete.
    Ready { region: FaultRegion, channel: Option<i32> },
    /// Startup was given up.
    Failed { error: SetupError },
}

/// The outcome of the step taken last.
#[derive(Clone, Copy, Debug, PartialEq, Eq, Structural)]
pub enum SetupEvent {
    /// The environment toggle was read: `present` says whether it is set.
    Toggle { present: bool },
    /// The mapping call returned: the base address, or `None` if it failed.
    Mapped { addr: Option<u64> },
    /// A system call returned `value`.
    Returned { value: i64 },
}

/// What the caller is to do next.
#[allow(inconsistent_fields)]
#[derive(Clone, Copy, Debug, PartialEq, Eq, Structural)]
pub enum SetupAction {
    /// Read the environment toggle.
    ReadToggle,
    /// Map `len` bytes at an address of the kernel's choice, with the given
    /// protection, private to the process or shared, backed by no file or
    /// by one.
    MapRegion { len: usize, readable: bool, writable: bool, private: bool, anonymous: bool },
    /// Create the notification channel, with non-blocking reads and closed
    /// on exec.
    OpenChannel { nonblocking: bool, close_on_exec: bool },
    /// Send the version handshake on `fd`.
    Handshake { fd: i32, request: u64, record: ApiRecord },
    /// Register the region on `fd`.
    Register { fd: i32, request: u64, record: RegisterRecord },
    /// Build the filesystem from `region` and `channel`.
    Finish { region: FaultRegion, channel: Option<i32> },
    /// Stop the process with a diagnostic for `error`.
    Abort { error: SetupError },
}

impl SetupState {
    /// Whether `event` is the outcome that this state waits for.
    pub open spec fn expects(self, event: SetupEvent) -> bool {
        match self {
            SetupState::Start => event is Toggle,
            SetupState::Mapping { .. } => event is Mapped,
            SetupState::Opening { .. } => event is Returned,
            SetupState::Handshaking { .. } => event is Returned,
            SetupState::Registering { .. } => event is Returned,
            SetupState::Ready { .. } => false,
            SetupState::Failed { .. } => false,
        }
    }

    /// Whether startup has ended, well or badly.
    pub open spec fn is_final(self) -> bool {
        self is Ready || self is Failed
    }

    /// The state after `event`. An event that the state does not wait for
    /// changes nothing.
    pub open spec fn next(self, event: SetupEvent) -> SetupState {
        match (self, event) {
            (SetupState::Start, SetupEvent::Toggle { present }) => SetupState::Mapping {
                enabled: present,
            },
            (SetupState::Mapping { enabled }, SetupEvent::Mapped { addr: Some(addr) }) => {
                let region = FaultRegion { addr, len: REGION_LEN };
                if enabled {
                    SetupState::Opening { region }
                } else {
                    SetupState::Ready { region, channel: None }
                }
            },
            (SetupState::Mapping { .. }, SetupEvent::Mapped { addr: None }) => SetupState::Failed {
                error: SetupError::MapFailed,
            },
            (SetupState::Opening { region }, SetupEvent::Returned { value }) => if value < 0 {
                SetupState::Failed { error: SetupError::ChannelFailed }
            } else {
                SetupState::Handshaking { region, fd: value as i32 }
            },
            (SetupState::Handshaking { region, fd }, SetupEvent::Returned { value }) => if value
                < 0 {
                SetupState::Failed { error: SetupError::HandshakeFailed }
            } else {
                SetupState::Registering { region, fd }
            },
            (SetupState::Registering { region, fd }, SetupEvent::Returned { value }) => if value
                < 0 {
                SetupState::Failed { error: SetupError::RegisterFailed }
            } else {
                SetupState::Ready { region, channel: Some(fd) }
            },
            _ => self,
        }
    }

    /// The state after each of `events` in turn.
    pub open spec fn after(self, events: Seq<SetupEvent>) -> SetupState
        decreases events.len(),
    {
        if events.len() == 0 {
            self
        } else {
            self.after(events.drop_last()).next(events.last())
        }
    }

    /// What a state asks of the caller.
    pub open spec fn action(self) -> SetupAction {
        match self {
            SetupState::Start => SetupAction::ReadToggle,
            SetupState::Mapping { .. } => SetupAction::MapRegion {
                len: REGION_LEN,
                readable: true,
                writable: true,
                private: true,
                anonymous: true,
            },
            SetupState::Opening { .. } => SetupAction::OpenChannel {
                nonblocking: true,
                close_on_exec: true,
            },
            SetupState::Handshaking { fd, .. } => SetupAction::Handshake {
                fd,
                request: UFFDIO_API,
                record: api_record(),
            },
            SetupState::Registering { region, fd } => SetupAction::Register {
                fd,
                request: UFFDIO_REGISTER,
                record: register_record(region.addr, region.len as u64),
            },
            SetupState::Ready { region, channel } => SetupAction::Finish { region, channel },
            SetupState::Failed { error } => SetupAction::Abort { error },
        }
    }

    /// The state that startup begins in.
    pub fn start() -> (state: SetupState)
        ensures
            state == SetupState::Start,
    {
        SetupState::Start
    }

    /// Tells whether `event` is the outcome that this state waits for.
    pub fn accepts(&self, event: &SetupEvent) -> (ok: bool)
        ensures
            ok == self.expects(*event),
    {
        match self {
            SetupState::Start => matches!(event, SetupEvent::Toggle { .. }),
            SetupState::Mapping { .. } => matches!(event, SetupEvent::Mapped { .. }),
            SetupState::Opening { .. } => matches!(event, SetupEvent::Returned { .. }),
            SetupState::Handshaking { .. } => matches!(event, SetupEvent::Returned { .. }),
            SetupState::Registering { .. } => matches!(event, SetupEvent::Returned { .. }),
            SetupState::Ready { .. } => false,
            SetupState::Failed { .. } => false,
        }
    }

    /// What this state asks of the caller.
    pub fn pending(&self) -> (action: SetupAction)
        ensures
            action == self.action(),
    {
        match *self {
            SetupState::Start => SetupAction::ReadToggle,
            SetupState::Mapping { .. } => SetupAction::MapRegion {
                len: REGION_LEN,
                readable: true,
                writable: true,
                private: true,
                anonymous: true,
            },
            SetupState::Opening { .. } => SetupAction::OpenChannel {
                nonblocking: true,
                close_on_exec: true,
            },
            SetupState::Handshaking { fd, .. } => SetupAction::Handshake {
                fd,
                request: UFFDIO_API,
                record: new_api_record(),
            },
            SetupState::Registering { region, fd } => SetupAction::Register {
                fd,
                request: UFFDIO_REGISTER,
                record: new_register_record(region.addr, region.len as u64),
            },
            SetupState::Ready { region, channel } => SetupAction::Finish { region, channel },
            SetupState::Failed { error } => SetupAction::Abort { error },
        }
    }

    /// Takes the outcome of the last step and returns the new state with
    /// what it asks of the caller. A failed call ends startup at once; the
    /// channel is opened only if the toggle was present, the handshake is
    /// sent only on an open channel, and the region is registered only after
    /// the handshake. An outcome that the state does not wait for leaves it
    /// as it is, and its request is made again.
    pub fn step(self, event: SetupEvent) -> (out: (SetupState, SetupAction))
        ensures
            out.0 == self.next(event),
            out.1 == self.next(event).action(),
    {
        let state = match (self, event) {
            (SetupState::Start, SetupEvent::Toggle { present }) => SetupState::Mapping {
                enabled: present,
            },
            (SetupState::Mapping { enabled }, SetupEvent::Mapped { addr: Some(addr) }) => {
                let region = FaultRegion { addr, len: REGION_LEN };
                if enabled {
                    SetupState::Opening { region }
                } else {
                    SetupState::Ready { region, channel: None }
                }
            },
            (SetupState::Mapping { .. }, SetupEvent::Mapped { addr: None }) => SetupState::Failed {
                error: SetupError::MapFailed,
            },
            (SetupState::Opening { region }, SetupEvent::Returned { value }) => {
                if value < 0 {
                    SetupState::Failed { error: SetupError::ChannelFailed }
                } else {
                    SetupState::Handshaking { region, fd: low_word(value) }
                }
            },
            (SetupState::Handshaking { region, fd }, SetupEvent::Returned { value }) => {
                if value < 0 {
                    SetupState::Failed { error: SetupError::HandshakeFailed }
                } else {
                    SetupState::Registering { region, fd }
                }
            },
            (SetupState::Registering { region, fd }, SetupEvent::Returned { value }) => {
                if value < 0 {
                    SetupState::Failed { error: SetupError::RegisterFailed }
                } else {
                    SetupState::Ready { region, channel: Some(fd) }
                }
            },
            _ => self,
        };
        let action = state.pending();
        (state, action)
    }
}

} // verus!
