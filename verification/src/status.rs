//! What the service registry reports about a service.

use vstd::prelude::*;

verus! {

/// The exit code that means "no error".
pub const NO_ERROR: u32 = 0;

/// The exit code reported when the pipeline could not be shut down cleanly.
pub const ERROR_FAIL_SHUTDOWN: u32 = 351;

/// The service type bit of a service that runs in a process of its own.
pub const SERVICE_WIN32_OWN_PROCESS: u32 = 0x0000_0010;

/// The accepted-controls bit of a service that can be told to stop.
pub const SERVICE_ACCEPT_STOP: u32 = 0x0000_0001;

/// The state of a service, as the registry reports it.
#[derive(Clone, Copy, Debug, PartialEq, Eq, Structural)]
pub enum ServiceState {
    Stopped,
    StartPending,
    StopPending,
    Running,
    ContinuePending,
    PausePending,
    Paused,
}

/// How a service ended: with a code of the operating system, or with a code
/// of its own.
#[derive(Clone, Copy, Debug, PartialEq, Eq, Structural)]
pub enum ServiceExitCode {
    Win32(u32),
    ServiceSpecific(u32),
}

/// The kind of a service, as a set of flag bits.
#[derive(Clone, Copy, Debug, PartialEq, Eq, Structural)]
pub struct ServiceType {
    pub bits: u32,
}

/// The controls that a service accepts, as a set of flag bits.
#[derive(Clone, Copy, Debug, PartialEq, Eq, Structural)]
pub struct ServiceControlAccept {
    pub bits: u32,
}

/// A length of time, in nanoseconds.
#[derive(Clone, Copy, Debug, PartialEq, Eq, Structural)]
pub struct Span {
    pub nanos: u128,
}

impl Span {
    /// No time at all.
    pub fn zero() -> (span: Span)
        ensures
            span.nanos == 0,
    {
        Span { nanos: 0 }
    }

    /// A span of whole seconds.
    pub fn from_secs(secs: u64) -> (span: Span)
        ensures
            span.nanos == secs * 1_000_000_000,
    {
        let wide: u128 = secs as u128;
        Span { nanos: wide * 1_000_000_000 }
    }

    /// A span of whole milliseconds.
    pub fn from_millis(millis: u64) -> (span: Span)
        ensures
            span.nanos == millis * 1_000_000,
    {
        let wide: u128 = millis as u128;
        Span { nanos: wide * 1_000_000 }
    }
}

/// A snapshot of a service's status.
#[derive(Clone, Copy, Debug, PartialEq, Eq)]
pub struct ServiceStatus {
    pub service_type: ServiceType,
    pub current_state: ServiceState,
    pub controls_accepted: ServiceControlAccept,
    pub exit_code: ServiceExitCode,
    pub checkpoint: u32,
    pub wait_hint: Span,
    pub process_id: Option<u32>,
}

} // verus!
