//! Bringing up the link to the television's control bus.
//!
//! The adapter library is driven from outside this crate. What it answers is
//! handed in as plain numbers, and the functions here decide what those
//! answers mean and what to ask for next.

use vstd::prelude::*;
use libc::c_int;
use crate::tv::TVError;

verus! {

/// Major part of the adapter library version this crate speaks.
pub const CEC_VERSION_MAJOR: u32 = 3;

/// Minor part of the adapter library version this crate speaks.
pub const CEC_VERSION_MINOR: u32 = 0;

/// Patch part of the adapter library version this crate speaks.
pub const CEC_VERSION_PATCH: u32 = 1;

/// How many adapters an enumeration has room for.
pub const ADAPTER_CAPACITY: u8 = 10;

/// How long opening an adapter may take, in milliseconds.
pub const OPEN_TIMEOUT_MS: u32 = 5000;

/// Why the link could not be brought up.
#[derive(Debug, Clone, Copy, PartialEq, Eq, Structural)]
pub enum CecError {
    /// The adapter library gave no connection handle.
    InitFailed,
    /// Enumerating the adapters failed.
    FindAdaptersFailed,
    /// The enumeration came back empty.
    NoAdapterFound,
    /// The adapter could not be opened.
    OpenFailed,
}

/// The kinds of device on the bus.
#[derive(Debug, Clone, Copy, PartialEq, Eq, Structural)]
pub enum CecDeviceType {
    TV,
    RecordingDevice,
    Reserved,
    Tuner,
    PlaybackDevice,
    AudioSystem,
}

impl CecDeviceType {
    /// The number the adapter library knows this kind by.
    pub open spec fn spec_code(self) -> int {
        match self {
            CecDeviceType::TV => 0,
            CecDeviceType::RecordingDevice => 1,
            CecDeviceType::Reserved => 2,
            CecDeviceType::Tuner => 3,
            CecDeviceType::PlaybackDevice => 4,
            CecDeviceType::AudioSystem => 5,
        }
    }

    /// The number the adapter library knows this kind by.
    pub fn code(self) -> (n: c_int)
        ensures
            n == self.spec_code(),
    {
        match self {
            CecDeviceType::TV => 0,
            CecDeviceType::RecordingDevice => 1,
            CecDeviceType::Reserved => 2,
            CecDeviceType::Tuner => 3,
            CecDeviceType::PlaybackDevice => 4,
            CecDeviceType::AudioSystem => 5,
        }
    }
}

/// Addresses on the bus that commands are sent to.
#[derive(Debug, Clone, Copy, PartialEq, Eq, Structural)]
pub enum CecLogicalAddress {
    Unknown,
    TV,
}

impl CecLogicalAddress {
    /// The number the adapter library knows this address by.
    pub open spec fn spec_code(self) -> int {
        match self {
            CecLogicalAddress::Unknown => -1,
            CecLogicalAddress::TV => 0,
        }
    }

    /// The number the adapter library knows this address by.
    pub fn code(self) -> (n: c_int)
        ensures
            n == self.spec_code(),
    {
        match self {
            CecLogicalAddress::Unknown => -1,
            CecLogicalAddress::TV => 0,
        }
    }
}

/// A version as the adapter library encodes it: major, minor and patch, from
/// the high bits down, eight bits each for minor and patch.
pub open spec fn version_code(major: int, minor: int, patch: int) -> int {
    major * 65536 + minor * 256 + patch
}

/// The settings this crate chooses when it asks for a connection; every
/// other setting keeps the adapter library's default.
#[derive(Debug, Clone, Copy, PartialEq, Eq, Structural)]
pub struct LibcecConfiguration {
    /// The library version the client was written for.
    pub client_version: u32,
    /// Whether to make this device the active source on start.
    pub activate_source: bool,
    /// The kind of device this client presents itself as.
    pub device_type: CecDeviceType,
}

impl LibcecConfiguration {
    /// The settings of this crate: its own version, no activation, and a
    /// recording device.
    pub fn new() -> (config: LibcecConfiguration)
        ensures
            config.client_version == version_code(
                CEC_VERSION_MAJOR as int,
                CEC_VERSION_MINOR as int,
                CEC_VERSION_PATCH as int,
            ),
            config.client_version == 0x0003_0001,
            !config.activate_source,
            config.device_type == CecDeviceType::RecordingDevice,
    {
        let client_version: u32 = (CEC_VERSION_MAJOR << 16) | (CEC_VERSION_MINOR << 8)
            | CEC_VERSION_PATCH;
        assert(((3u32 << 16) | (0u32 << 8) | 1u32) == 0x0003_0001u32) by (bit_vector);
        LibcecConfiguration {
            client_version,
            activate_source: false,
            device_type: CecDeviceType::RecordingDevice,
        }
    }
}

/// What the adapter library answered during bring-up.
#[derive(Debug, Clone, Copy, PartialEq, Eq, Structural)]
pub enum InitReply {
    /// Nothing was asked yet.
    Begin,
    /// The enumeration reported this count; a negative one is a failure.
    Adapters(i8),
    /// Opening the adapter returned this status; zero is a failure.
    Opened(c_int),
}

/// What to ask of the adapter library next.
#[derive(Debug, Clone, Copy, PartialEq, Eq, Structural)]
pub enum InitRequest {
    /// Switch video to standalone, then enumerate at most `capacity`
    /// adapters.
    FindAdapters { capacity: u8 },
    /// Open the adapter at `index` of the enumeration, waiting at most
    /// `timeout_ms`.
    Open { index: usize, timeout_ms: u32 },
    /// Mark the view inactive. Bring-up is complete.
    SetInactiveView,
}

/// How far bring-up has come.
#[derive(Debug, Clone, Copy, PartialEq, Eq, Structural)]
pub enum Stage {
    /// A handle exists; nothing else was done.
    Created,
    /// Waiting for the enumeration.
    Enumerating,
    /// Waiting for the adapter to open.
    Opening,
    /// The adapter is open.
    Ready,
    /// Bring-up failed.
    Failed,
}

/// How many entries of an enumeration are valid when the library reported
/// `reported`: all that it reported, as far as the buffer had room.
pub open spec fn adapters_listed(reported: i8) -> Result<int, CecError> {
    if reported < 0 {
        Err(CecError::FindAdaptersFailed)
    } else if reported > ADAPTER_CAPACITY {
        Ok(ADAPTER_CAPACITY as int)
    } else {
        Ok(reported as int)
    }
}

/// What follows from `reply`: the next request, or the reason to give up.
pub open spec fn init_step(reply: InitReply) -> Result<InitRequest, CecError> {
    match reply {
        InitReply::Begin => Ok(InitRequest::FindAdapters { capacity: ADAPTER_CAPACITY }),
        InitReply::Adapters(reported) => match adapters_listed(reported) {
            Err(e) => Err(e),
            Ok(n) => if n == 0 {
                Err(CecError::NoAdapterFound)
            } else {
                Ok(InitRequest::Open { index: 0, timeout_ms: OPEN_TIMEOUT_MS })
            },
        },
        InitReply::Opened(status) => if status == 0 {
            Err(CecError::OpenFailed)
        } else {
            Ok(InitRequest::SetInactiveView)
        },
    }
}

/// The stage that `reply` leads to. It follows from the answer alone: the
/// answers come in the order of the requests, each of which is made only
/// when the one before it succeeded.
pub open spec fn stage_after(reply: InitReply) -> Stage {
    match init_step(reply) {
        Err(_) => Stage::Failed,
        Ok(InitRequest::FindAdapters { .. }) => Stage::Enumerating,
        Ok(InitRequest::Open { .. }) => Stage::Opening,
        Ok(InitRequest::SetInactiveView) => Stage::Ready,
    }
}

/// What a command status of the adapter library means: zero is a failure.
pub open spec fn status_result(status: c_int) -> Result<(), TVError> {
    if status == 0 {
        Err(TVError::TVControlFailed)
    } else {
        Ok(())
    }
}

/// The link to the control bus, as far as this crate knows it: the handle
/// the adapter library gave, and how far bring-up has come.
#[derive(Debug)]
pub struct Connection {
    handle: usize,
    stage: Stage,
}

impl Connection {
    /// The handle is a real one.
    pub closed spec fn wf(&self) -> bool {
        self.handle != 0
    }

    /// The handle the adapter library gave.
    pub closed spec fn spec_handle(&self) -> usize {
        self.handle
    }

    /// How far bring-up has come.
    pub closed spec fn spec_stage(&self) -> Stage {
        self.stage
    }

    /// Take the handle that the adapter library returned for a
    /// [`LibcecConfiguration`]. A null handle, which is zero, means that the
    /// library could not be initialised.
    pub fn new(handle: usize) -> (r: Result<Connection, CecError>)
        ensures
            handle == 0 <==> r == Err::<Connection, CecError>(CecError::InitFailed),
            handle != 0 ==> r is Ok && r->Ok_0.wf() && r->Ok_0.spec_handle() == handle
                && r->Ok_0.spec_stage() == Stage::Created,
    {
        if handle == 0 {
            Err(CecError::InitFailed)
        } else {
            Ok(Connection { handle, stage: Stage::Created })
        }
    }

    /// The handle the adapter library gave.
    pub fn handle(&self) -> (h: usize)
        ensures
            h == self.spec_handle(),
    {
        self.handle
    }

    /// How far bring-up has come.
    pub fn stage(&self) -> (s: Stage)
        ensures
            s == self.spec_stage(),
    {
        self.stage
    }

    /// How many adapters an enumeration found, given the count it reported.
    pub fn find_adapters(&self, reported: i8) -> (r: Result<usize, CecError>)
        ensures
            match adapters_listed(reported) {
                Ok(n) => r == Ok::<usize, CecError>(n as usize),
                Err(e) => r == Err::<usize, CecError>(e),
            },
    {
        if reported < 0 {
            Err(CecError::FindAdaptersFailed)
        } else if reported > ADAPTER_CAPACITY as i8 {
            Ok(ADAPTER_CAPACITY as usize)
        } else {
            Ok(reported as usize)
        }
    }

    /// Advance bring-up by one answer of the adapter library: start with
    /// [`InitReply::Begin`], carry out each request that comes back and hand
    /// in its answer, until the request is [`InitRequest::SetInactiveView`]
    /// or an error says why bring-up ended.
    pub fn init(&mut self, reply: InitReply) -> (r: Result<InitRequest, CecError>)
        requires
            old(self).wf(),
        ensures
            r == init_step(reply),
            final(self).wf(),
            final(self).spec_handle() == old(self).spec_handle(),
            final(self).spec_stage() == stage_after(reply),
    {
        let r = match reply {
            InitReply::Begin => Ok(InitRequest::FindAdapters { capacity: ADAPTER_CAPACITY }),
            InitReply::Adapters(reported) => match self.find_adapters(reported) {
                Err(e) => Err(e),
                Ok(n) => if n == 0 {
                    Err(CecError::NoAdapterFound)
                } else {
                    Ok(InitRequest::Open { index: 0, timeout_ms: OPEN_TIMEOUT_MS })
                },
            },
            InitReply::Opened(status) => if status == 0 {
                Err(CecError::OpenFailed)
            } else {
                Ok(InitRequest::SetInactiveView)
            },
        };
        self.stage = match r {
            Err(_) => Stage::Failed,
            Ok(InitRequest::FindAdapters { .. }) => Stage::Enumerating,
            Ok(InitRequest::Open { .. }) => Stage::Opening,
            Ok(InitRequest::SetInactiveView) => Stage::Ready,
        };
        r
    }

    /// What the status of a power-on or standby command means.
    pub fn command_result(&self, status: c_int) -> (r: Result<(), TVError>)
        ensures
            r == status_result(status),
    {
        if status == 0 {
            Err(TVError::TVControlFailed)
        } else {
            Ok(())
        }
    }
}

} // verus!
