//! The service registry, as the library sees it: the calls that it asks
//! for, the answers that it is given, and the events that it announces.
//!
//! The registry itself is the caller's. The caller performs each
//! [`Command`] and hands back a [`Reply`].

use crate::definition::{ServiceInfo, ServiceInfoView};
use crate::error::{ProviderError, ProviderErrorView};
use crate::status::{ServiceStatus, Span};
use vstd::prelude::*;

verus! {

/// The right to connect to the registry.
pub const SC_MANAGER_CONNECT: u32 = 0x0001;

/// The right to create a service in the registry.
pub const SC_MANAGER_CREATE_SERVICE: u32 = 0x0002;

/// The right to ask a service for its status.
pub const SERVICE_QUERY_STATUS: u32 = 0x0004;

/// The right to start a service.
pub const SERVICE_START: u32 = 0x0010;

/// The right to stop a service.
pub const SERVICE_STOP: u32 = 0x0020;

/// The right to delete a service.
pub const SERVICE_DELETE: u32 = 0x0001_0000;

/// The rights asked for when connecting to the registry, as flag bits.
#[derive(Clone, Copy, Debug, PartialEq, Eq, Structural)]
pub struct ServiceManagerAccess {
    pub bits: u32,
}

/// The rights asked for when opening or creating a service, as flag bits.
#[derive(Clone, Copy, Debug, PartialEq, Eq, Structural)]
pub struct ServiceAccess {
    pub bits: u32,
}

/// A call into the registry, or a pause, that the caller is asked to make.
#[derive(Clone, Debug, PartialEq, Eq)]
pub enum Command {
    /// Connect to the registry of the local machine.
    Connect { manager_access: ServiceManagerAccess },
    /// Create a service from this record.
    CreateService { info: ServiceInfo, access: ServiceAccess },
    /// Open the service of this name.
    OpenService { name: String, access: ServiceAccess },
    /// Ask the open service for its status.
    QueryStatus,
    /// Start the open service, with no arguments.
    Start,
    /// Stop the open service.
    Stop,
    /// Delete the open service from the registry.
    Delete,
    /// Block for this long.
    Sleep { duration: Span },
}

/// The mathematical content of a [`Command`].
pub enum CommandView {
    Connect { manager_access: ServiceManagerAccess },
    CreateService { info: ServiceInfoView, access: ServiceAccess },
    OpenService { name: Seq<char>, access: ServiceAccess },
    QueryStatus,
    Start,
    Stop,
    Delete,
    Sleep { duration: Span },
}

impl View for Command {
    type V = CommandView;

    open spec fn view(&self) -> CommandView {
        match *self {
            Command::Connect { manager_access } => CommandView::Connect { manager_access },
            Command::CreateService { info, access } => CommandView::CreateService {
                info: info@,
                access,
            },
            Command::OpenService { name, access } => CommandView::OpenService {
                name: name@,
                access,
            },
            Command::QueryStatus => CommandView::QueryStatus,
            Command::Start => CommandView::Start,
            Command::Stop => CommandView::Stop,
            Command::Delete => CommandView::Delete,
            Command::Sleep { duration } => CommandView::Sleep { duration },
        }
    }
}

/// What the registry answered to the command made last.
#[derive(Clone, Debug, PartialEq, Eq)]
pub enum Reply {
    /// The call succeeded, or the pause is over.
    Done,
    /// The call succeeded and returned this status.
    Status(ServiceStatus),
    /// The call failed.
    Failed(ProviderError),
}

/// The mathematical content of a [`Reply`].
pub enum ReplyView {
    Done,
    Status(ServiceStatus),
    Failed(ProviderErrorView),
}

impl View for Reply {
    type V = ReplyView;

    open spec fn view(&self) -> ReplyView {
        match *self {
            Reply::Done => ReplyView::Done,
            Reply::Status(status) => ReplyView::Status(status),
            Reply::Failed(error) => ReplyView::Failed(error@),
        }
    }
}

/// A lifecycle event, announced on the side: it changes nothing in what a
/// control action does.
#[derive(Clone, Copy, Debug, PartialEq, Eq, Structural)]
pub enum Event {
    ServiceInstalled,
    ServiceUninstalled,
    ServiceStarted { already_started: bool },
    ServiceStopped { already_stopped: bool },
    ServiceRestarted,
    ServiceDoesNotExist,
}

} // verus!
