//! The five control actions.
//!
//! Each action is a short sequence of calls into the service registry, with
//! a decision after each answer. [`control`] names the first call; after
//! each call [`resume`] takes the answer and names the next, or ends the
//! action. A status is read from the answer just given and never kept for a
//! later decision.
//!
//! A reply that is no failure counts as success, whether it carries a
//! status or not. Where a status was asked for and the reply carries none,
//! the action fails: a registry that does not answer what it is asked has
//! failed.

use crate::action::ControlAction;
use crate::definition::{service_info, service_record, ServiceDefinition, ServiceDefinitionView};
use crate::error::{missing_service, no_status, Error, ErrorView, ProviderError};
use crate::poll::{ensure_next, ensure_state, EnsureStep, EnsureStepView, PollStage};
use crate::provider::{
    Command, CommandView, Event, Reply, ReplyView, ServiceAccess, ServiceManagerAccess,
    SC_MANAGER_CONNECT, SC_MANAGER_CREATE_SERVICE, SERVICE_DELETE, SERVICE_QUERY_STATUS,
    SERVICE_START, SERVICE_STOP,
};
use crate::status::{ServiceExitCode, ServiceState, Span, NO_ERROR};
use vstd::prelude::*;

verus! {

/// How long a restart or an uninstall waits for the service to stop, in
/// seconds.
pub const STOP_TIMEOUT_SECS: u64 = 10;

/// How long a restart or an uninstall pauses between two looks at the
/// service that it waits for, in seconds.
pub const STOP_WAIT_HINT_SECS: u64 = 1;

/// The time that a restart or an uninstall allows the service to stop.
pub open spec fn stop_timeout() -> Span {
    Span { nanos: 10_000_000_000 }
}

/// The pause between two status queries of a restart or an uninstall.
pub open spec fn stop_wait_hint() -> Span {
    Span { nanos: 1_000_000_000 }
}

/// The rights with which an action that opens a service connects.
pub open spec fn connect_access() -> ServiceManagerAccess {
    ServiceManagerAccess { bits: SC_MANAGER_CONNECT }
}

/// The rights with which an install connects.
pub open spec fn install_access() -> ServiceManagerAccess {
    ServiceManagerAccess { bits: SC_MANAGER_CONNECT | SC_MANAGER_CREATE_SERVICE }
}

/// The rights with which a start opens the service.
pub open spec fn start_access() -> ServiceAccess {
    ServiceAccess { bits: SERVICE_QUERY_STATUS | SERVICE_START }
}

/// The rights with which a stop opens the service.
pub open spec fn stop_access() -> ServiceAccess {
    ServiceAccess { bits: SERVICE_QUERY_STATUS | SERVICE_STOP }
}

/// The rights with which a restart opens the service.
pub open spec fn restart_access() -> ServiceAccess {
    ServiceAccess { bits: SERVICE_QUERY_STATUS | SERVICE_START | SERVICE_STOP }
}

/// The rights with which an uninstall opens the service.
pub open spec fn uninstall_access() -> ServiceAccess {
    ServiceAccess { bits: SERVICE_QUERY_STATUS | SERVICE_STOP | SERVICE_DELETE }
}

/// Whether a service in `state` is up or on its way up.
pub open spec fn is_starting(state: ServiceState) -> bool {
    state == ServiceState::StartPending || state == ServiceState::Running
}

/// Whether a service in `state` is down or on its way down.
pub open spec fn is_stopping(state: ServiceState) -> bool {
    state == ServiceState::StopPending || state == ServiceState::Stopped
}

/// Where the opening of a service stands.
#[derive(Clone, Copy, Debug, PartialEq, Eq, Structural)]
pub enum OpenStage {
    /// The connection to the registry is outstanding.
    Connect,
    /// The opening of the service is outstanding.
    Open,
}

/// Where a start stands.
#[derive(Clone, Copy, Debug, PartialEq, Eq, Structural)]
pub enum StartStage {
    /// The service is being opened.
    Opening(OpenStage),
    /// The status of the service is being asked for.
    Inspect,
    /// The service is being started.
    Launch,
}

/// Where a stop stands.
#[derive(Clone, Copy, Debug, PartialEq, Eq, Structural)]
pub enum StopStage {
    /// The service is being opened.
    Opening(OpenStage),
    /// The status of the service is being asked for.
    Inspect,
    /// The service is being stopped.
    Halt,
}

/// Where a restart stands.
#[derive(Clone, Copy, Debug, PartialEq, Eq)]
pub enum RestartStage {
    /// The service is being opened.
    Opening(OpenStage),
    /// The status of the service is being asked for.
    Inspect,
    /// The service is being stopped.
    Halt,
    /// The action waits for the service to have stopped.
    Settle(PollStage),
    /// The service is being started.
    Launch,
}

/// Where an install stands.
#[derive(Clone, Copy, Debug, PartialEq, Eq, Structural)]
pub enum InstallStage {
    /// The connection to the registry is outstanding.
    Connect,
    /// The creation of the service is outstanding.
    Create,
}

/// Where an uninstall stands.
#[derive(Clone, Copy, Debug, PartialEq, Eq)]
pub enum UninstallStage {
    /// The service is being opened.
    Opening(OpenStage),
    /// The status of the service is being asked for.
    Inspect,
    /// The service is being stopped.
    Halt,
    /// The action waits for the service to have stopped.
    Settle(PollStage),
    /// The service is being deleted.
    Remove,
}

/// A control action under way: which action, and where it stands.
#[derive(Clone, Copy, Debug, PartialEq, Eq)]
pub enum Session {
    Start(StartStage),
    Stop(StopStage),
    Restart(RestartStage),
    Install(InstallStage),
    Uninstall(UninstallStage),
}

impl Session {
    /// The action that the session carries out.
    pub open spec fn action(self) -> ControlAction {
        match self {
            Session::Start(_) => ControlAction::Start,
            Session::Stop(_) => ControlAction::Stop,
            Session::Restart(_) => ControlAction::Restart,
            Session::Install(_) => ControlAction::Install,
            Session::Uninstall(_) => ControlAction::Uninstall,
        }
    }

    /// The session in which `action` begins.
    pub open spec fn first(action: ControlAction) -> Session {
        match action {
            ControlAction::Start => Session::Start(StartStage::Opening(OpenStage::Connect)),
            ControlAction::Stop => Session::Stop(StopStage::Opening(OpenStage::Connect)),
            ControlAction::Restart => Session::Restart(RestartStage::Opening(OpenStage::Connect)),
            ControlAction::Install => Session::Install(InstallStage::Connect),
            ControlAction::Uninstall => Session::Uninstall(
                UninstallStage::Opening(OpenStage::Connect),
            ),
        }
    }
}

/// What is known of the way a service stopped.
#[derive(Clone, Copy, Debug, PartialEq, Eq, Structural)]
pub struct ExitReport {
    /// The exit code of the service.
    pub exit_code: ServiceExitCode,
    /// The code to warn about, where the service ended in error.
    pub warning: Option<u32>,
}

/// What there is to say of a service that stopped with `exit_code`: a
/// code of the service's own is an error, and so is any code of the
/// operating system but the one that means none.
pub open spec fn exit_report(exit_code: ServiceExitCode) -> ExitReport {
    ExitReport {
        exit_code,
        warning: match exit_code {
            ServiceExitCode::Win32(code) => if code != NO_ERROR {
                Some(code)
            } else {
                None
            },
            ServiceExitCode::ServiceSpecific(code) => Some(code),
        },
    }
}

/// Looks at the exit code of a service that has stopped, and says whether
/// it calls for a warning.
pub fn handle_service_exit_code(exit_code: ServiceExitCode) -> (report: ExitReport)
    ensures
        report == exit_report(exit_code),
        report.warning is None <==> exit_code == ServiceExitCode::Win32(0),
{
    let warning = match exit_code {
        ServiceExitCode::Win32(code) => if code != NO_ERROR {
            Some(code)
        } else {
            None
        },
        ServiceExitCode::ServiceSpecific(code) => Some(code),
    };
    ExitReport { exit_code, warning }
}

/// What a step asks of the caller next.
#[derive(Debug, PartialEq, Eq)]
pub enum Next {
    /// Perform `command`, then hand the reply to [`resume`], together with
    /// `session`.
    Call { command: Command, session: Session },
    /// The action is complete, with this result.
    Finished { result: Result<(), Error> },
}

/// The mathematical content of a [`Next`].
pub enum NextView {
    Call { command: CommandView, session: Session },
    Finished { result: Result<(), ErrorView> },
}

impl View for Next {
    type V = NextView;

    open spec fn view(&self) -> NextView {
        match *self {
            Next::Call { command, session } => NextView::Call { command: command@, session },
            Next::Finished { result } => NextView::Finished {
                result: match result {
                    Ok(()) => Ok(()),
                    Err(error) => Err(error@),
                },
            },
        }
    }
}

/// One step of a control action.
#[derive(Debug, PartialEq, Eq)]
pub struct Step {
    /// The lifecycle event to announce, if the step brought one.
    pub event: Option<Event>,
    /// How the service stopped, if the step saw it stopped after a wait.
    pub exit: Option<ExitReport>,
    /// What to do next.
    pub next: Next,
}

/// The mathematical content of a [`Step`].
pub struct StepView {
    pub event: Option<Event>,
    pub exit: Option<ExitReport>,
    pub next: NextView,
}

impl View for Step {
    type V = StepView;

    open spec fn view(&self) -> StepView {
        StepView { event: self.event, exit: self.exit, next: self.next@ }
    }
}

/// The step that asks for `command` and has nothing to announce.
pub open spec fn call(command: CommandView, session: Session) -> StepView {
    StepView { event: None, exit: None, next: NextView::Call { command, session } }
}

/// The step that ends an action in success and announces `event`.
pub open spec fn succeeded(event: Event) -> StepView {
    StepView { event: Some(event), exit: None, next: NextView::Finished { result: Ok(()) } }
}

/// The step that ends an action in failure.
pub open spec fn failed(error: ErrorView) -> StepView {
    StepView { event: None, exit: None, next: NextView::Finished { result: Err(error) } }
}

/// One step of the opening of a service.
#[derive(Debug, PartialEq, Eq)]
pub enum OpenStep {
    /// Perform `command`, then hand the reply to [`open_service`], together
    /// with `stage`.
    Call { command: Command, stage: OpenStage },
    /// The service is open.
    Opened,
    /// The service could not be opened.
    Failed { error: Error, event: Option<Event> },
}

/// The mathematical content of an [`OpenStep`].
pub enum OpenStepView {
    Call { command: CommandView, stage: OpenStage },
    Opened,
    Failed { error: ErrorView, event: Option<Event> },
}

impl View for OpenStep {
    type V = OpenStepView;

    open spec fn view(&self) -> OpenStepView {
        match *self {
            OpenStep::Call { command, stage } => OpenStepView::Call { command: command@, stage },
            OpenStep::Opened => OpenStepView::Opened,
            OpenStep::Failed { error, event } => OpenStepView::Failed { error: error@, event },
        }
    }
}

/// The first step of the opening of a service: a connection to the
/// registry with the right to connect and no other.
pub open spec fn open_first() -> OpenStepView {
    OpenStepView::Call {
        command: CommandView::Connect { manager_access: connect_access() },
        stage: OpenStage::Connect,
    }
}

/// The step that follows `stage` of the opening of the service
/// `definition` with the rights `access`, once the outstanding command was
/// answered with `reply`.
///
/// After the connection the service is opened by its name. A connection
/// that fails ends the opening with that failure. An opening that fails
/// does so too; where the failure says that the registry holds no such
/// service, and only there, it is announced that the service does not
/// exist.
pub open spec fn open_next(
    definition: ServiceDefinitionView,
    access: ServiceAccess,
    stage: OpenStage,
    reply: ReplyView,
) -> OpenStepView {
    match stage {
        OpenStage::Connect => match reply {
            ReplyView::Failed(source) => OpenStepView::Failed {
                error: ErrorView::Service { source },
                event: None,
            },
            _ => OpenStepView::Call {
                command: CommandView::OpenService { name: definition.name, access },
                stage: OpenStage::Open,
            },
        },
        OpenStage::Open => match reply {
            ReplyView::Failed(source) => OpenStepView::Failed {
                error: ErrorView::Service { source },
                event: if missing_service(source) {
                    Some(Event::ServiceDoesNotExist)
                } else {
                    None
                },
            },
            _ => OpenStepView::Opened,
        },
    }
}

/// What a step of the opening means to the action that opens the service:
/// once the service is open, its status is asked for at `inspect`.
pub open spec fn opening_step(
    step: OpenStepView,
    opening: spec_fn(OpenStage) -> Session,
    inspect: Session,
) -> StepView {
    match step {
        OpenStepView::Call { command, stage } => call(command, opening(stage)),
        OpenStepView::Opened => call(CommandView::QueryStatus, inspect),
        OpenStepView::Failed { error, event } => StepView {
            event,
            exit: None,
            next: NextView::Finished { result: Err(error) },
        },
    }
}

/// What a step of the wait for the stop means to the action that waits:
/// once the service has stopped, the way it stopped is reported and
/// `command` is asked for at `then`.
pub open spec fn settling_step(
    step: EnsureStepView,
    settling: spec_fn(PollStage) -> Session,
    command: CommandView,
    then: Session,
) -> StepView {
    match step {
        EnsureStepView::Call { command: poll, stage } => call(poll, settling(stage)),
        EnsureStepView::Finished { result: Err(error) } => failed(error),
        EnsureStepView::Finished { result: Ok(status) } => StepView {
            event: None,
            exit: Some(exit_report(status.exit_code)),
            next: NextView::Call { command, session: then },
        },
    }
}

/// The step with which a wait for the stop begins.
pub open spec fn settle_first(settling: spec_fn(PollStage) -> Session) -> StepView {
    call(CommandView::QueryStatus, settling(PollStage::Query { waited: Span { nanos: 0 } }))
}

/// The step that follows `stage` of a start, once the outstanding command
/// was answered with `reply`.
///
/// The service is opened with the rights to ask for its status and to
/// start it, and its status is asked for. A service that is neither
/// starting nor running is started, and the start is announced. One that
/// is, is left alone, and it is announced as started already.
pub open spec fn start_next(
    definition: ServiceDefinitionView,
    stage: StartStage,
    reply: ReplyView,
) -> StepView {
    match stage {
        StartStage::Opening(open) => opening_step(
            open_next(definition, start_access(), open, reply),
            |stage: OpenStage| Session::Start(StartStage::Opening(stage)),
            Session::Start(StartStage::Inspect),
        ),
        StartStage::Inspect => match reply {
            ReplyView::Failed(source) => failed(ErrorView::Service { source }),
            ReplyView::Status(status) => if !is_starting(status.current_state) {
                call(CommandView::Start, Session::Start(StartStage::Launch))
            } else {
                succeeded(Event::ServiceStarted { already_started: true })
            },
            ReplyView::Done => failed(ErrorView::Service { source: no_status() }),
        },
        StartStage::Launch => match reply {
            ReplyView::Failed(source) => failed(ErrorView::Service { source }),
            _ => succeeded(Event::ServiceStarted { already_started: false }),
        },
    }
}

/// The step that follows `stage` of a stop, once the outstanding command
/// was answered with `reply`.
///
/// The service is opened with the rights to ask for its status and to stop
/// it, and its status is asked for. A service that is neither stopping nor
/// stopped is stopped, and the stop is announced. One that is, is left
/// alone, and it is announced as stopped already.
pub open spec fn stop_next(
    definition: ServiceDefinitionView,
    stage: StopStage,
    reply: ReplyView,
) -> StepView {
    match stage {
        StopStage::Opening(open) => opening_step(
            open_next(definition, stop_access(), open, reply),
            |stage: OpenStage| Session::Stop(StopStage::Opening(stage)),
            Session::Stop(StopStage::Inspect),
        ),
        StopStage::Inspect => match reply {
            ReplyView::Failed(source) => failed(ErrorView::Service { source }),
            ReplyView::Status(status) => if !is_stopping(status.current_state) {
                call(CommandView::Stop, Session::Stop(StopStage::Halt))
            } else {
                succeeded(Event::ServiceStopped { already_stopped: true })
            },
            ReplyView::Done => failed(ErrorView::Service { source: no_status() }),
        },
        StopStage::Halt => match reply {
            ReplyView::Failed(source) => failed(ErrorView::Service { source }),
            _ => succeeded(Event::ServiceStopped { already_stopped: false }),
        },
    }
}

/// The step that follows `stage` of a restart, once the outstanding
/// command was answered with `reply`.
///
/// The service is opened with the rights to ask for its status, to start
/// and to stop it, and its status is asked for. A service that is starting
/// or running is stopped. Then the action waits for the service to have
/// stopped; if the time runs out, the action fails. Once the service has
/// stopped it is started, and the restart is announced.
pub open spec fn restart_next(
    definition: ServiceDefinitionView,
    stage: RestartStage,
    reply: ReplyView,
) -> StepView {
    let settling = |stage: PollStage| Session::Restart(RestartStage::Settle(stage));
    match stage {
        RestartStage::Opening(open) => opening_step(
            open_next(definition, restart_access(), open, reply),
            |stage: OpenStage| Session::Restart(RestartStage::Opening(stage)),
            Session::Restart(RestartStage::Inspect),
        ),
        RestartStage::Inspect => match reply {
            ReplyView::Failed(source) => failed(ErrorView::Service { source }),
            ReplyView::Status(status) => if is_starting(status.current_state) {
                call(CommandView::Stop, Session::Restart(RestartStage::Halt))
            } else {
                settle_first(settling)
            },
            ReplyView::Done => failed(ErrorView::Service { source: no_status() }),
        },
        RestartStage::Halt => match reply {
            ReplyView::Failed(source) => failed(ErrorView::Service { source }),
            _ => settle_first(settling),
        },
        RestartStage::Settle(poll) => settling_step(
            ensure_next(ServiceState::Stopped, stop_timeout(), stop_wait_hint(), poll, reply),
            settling,
            CommandView::Start,
            Session::Restart(RestartStage::Launch),
        ),
        RestartStage::Launch => match reply {
            ReplyView::Failed(source) => failed(ErrorView::Service { source }),
            _ => succeeded(Event::ServiceRestarted),
        },
    }
}

/// The first step of an install: a connection to the registry with the
/// rights to connect and to create a service.
pub open spec fn install_first() -> StepView {
    call(CommandView::Connect { manager_access: install_access() }, Session::Install(InstallStage::Connect))
}

/// The step that follows `stage` of an install, once the outstanding
/// command was answered with `reply`.
///
/// After the connection the service is created from the record of
/// `definition`, with no rights on the new service, and the install is
/// announced.
pub open spec fn install_next(
    definition: ServiceDefinitionView,
    stage: InstallStage,
    reply: ReplyView,
) -> StepView {
    match stage {
        InstallStage::Connect => match reply {
            ReplyView::Failed(source) => failed(ErrorView::Service { source }),
            _ => call(
                CommandView::CreateService {
                    info: service_record(definition),
                    access: ServiceAccess { bits: 0 },
                },
                Session::Install(InstallStage::Create),
            ),
        },
        InstallStage::Create => match reply {
            ReplyView::Failed(source) => failed(ErrorView::Service { source }),
            _ => succeeded(Event::ServiceInstalled),
        },
    }
}

/// The step that follows `stage` of an uninstall, once the outstanding
/// command was answered with `reply`.
///
/// The service is opened with the rights to ask for its status, to stop
/// and to delete it, and its status is asked for. A service that has not
/// stopped is stopped, and the stop is announced. Then the action waits
/// for the service to have stopped; if the time runs out, the action
/// fails. Once the service has stopped it is deleted, and the uninstall is
/// announced.
pub open spec fn uninstall_next(
    definition: ServiceDefinitionView,
    stage: UninstallStage,
    reply: ReplyView,
) -> StepView {
    let settling = |stage: PollStage| Session::Uninstall(UninstallStage::Settle(stage));
    match stage {
        UninstallStage::Opening(open) => opening_step(
            open_next(definition, uninstall_access(), open, reply),
            |stage: OpenStage| Session::Uninstall(UninstallStage::Opening(stage)),
            Session::Uninstall(UninstallStage::Inspect),
        ),
        UninstallStage::Inspect => match reply {
            ReplyView::Failed(source) => failed(ErrorView::Service { source }),
            ReplyView::Status(status) => if status.current_state != ServiceState::Stopped {
                call(CommandView::Stop, Session::Uninstall(UninstallStage::Halt))
            } else {
                settle_first(settling)
            },
            ReplyView::Done => failed(ErrorView::Service { source: no_status() }),
        },
        UninstallStage::Halt => match reply {
            ReplyView::Failed(source) => failed(ErrorView::Service { source }),
            _ => StepView {
                event: Some(Event::ServiceStopped { already_stopped: false }),
                ..settle_first(settling)
            },
        },
        UninstallStage::Settle(poll) => settling_step(
            ensure_next(ServiceState::Stopped, stop_timeout(), stop_wait_hint(), poll, reply),
            settling,
            CommandView::Delete,
            Session::Uninstall(UninstallStage::Remove),
        ),
        UninstallStage::Remove => match reply {
            ReplyView::Failed(source) => failed(ErrorView::Service { source }),
            _ => succeeded(Event::ServiceUninstalled),
        },
    }
}

/// The first step of `action`: the connection to the registry.
pub open spec fn begin(action: ControlAction) -> StepView {
    match action {
        ControlAction::Install => install_first(),
        _ => call(CommandView::Connect { manager_access: connect_access() }, Session::first(action)),
    }
}

/// The step that follows `session`, once the outstanding command was
/// answered with `reply`.
pub open spec fn next(definition: ServiceDefinitionView, session: Session, reply: ReplyView)
    -> StepView {
    match session {
        Session::Start(stage) => start_next(definition, stage, reply),
        Session::Stop(stage) => stop_next(definition, stage, reply),
        Session::Restart(stage) => restart_next(definition, stage, reply),
        Session::Install(stage) => install_next(definition, stage, reply),
        Session::Uninstall(stage) => uninstall_next(definition, stage, reply),
    }
}

/// The step that asks for `command`.
fn ask(command: Command, session: Session) -> (step: Step)
    ensures
        step@ == call(command@, session),
{
    Step { event: None, exit: None, next: Next::Call { command, session } }
}

/// The step that ends an action in success.
fn succeed(event: Event) -> (step: Step)
    ensures
        step@ == succeeded(event),
{
    Step { event: Some(event), exit: None, next: Next::Finished { result: Ok(()) } }
}

/// The step that ends an action in failure.
fn fail(error: Error) -> (step: Step)
    ensures
        step@ == failed(error@),
{
    Step { event: None, exit: None, next: Next::Finished { result: Err(error) } }
}

/// Begins the opening of a service.
pub fn open_begin() -> (step: OpenStep)
    ensures
        step@ == open_first(),
{
    OpenStep::Call {
        command: Command::Connect {
            manager_access: ServiceManagerAccess { bits: SC_MANAGER_CONNECT },
        },
        stage: OpenStage::Connect,
    }
}

/// Decides what the opening of the service `service_def` with the rights
/// `access` does after `stage`, given the reply to the command made there.
pub fn open_service(
    service_def: &ServiceDefinition,
    access: ServiceAccess,
    stage: OpenStage,
    reply: Reply,
) -> (step: OpenStep)
    ensures
        step@ == open_next(service_def@, access, stage, reply@),
{
    match stage {
        OpenStage::Connect => match reply {
            Reply::Failed(source) => OpenStep::Failed {
                error: Error::Service { source },
                event: None,
            },
            _ => OpenStep::Call {
                command: Command::OpenService { name: service_def.name.clone(), access },
                stage: OpenStage::Open,
            },
        },
        OpenStage::Open => match reply {
            Reply::Failed(source) => {
                let event = if source.is_missing_service() {
                    Some(Event::ServiceDoesNotExist)
                } else {
                    None
                };
                OpenStep::Failed { error: Error::Service { source }, event }
            },
            _ => OpenStep::Opened,
        },
    }
}

/// Decides what a start of the service `service_def` does after `stage`,
/// given the reply to the command made there.
pub fn start_service(service_def: &ServiceDefinition, stage: StartStage, reply: Reply) -> (step:
    Step)
    ensures
        step@ == start_next(service_def@, stage, reply@),
{
    match stage {
        StartStage::Opening(open) => {
            let service_access = ServiceAccess { bits: SERVICE_QUERY_STATUS | SERVICE_START };
            match open_service(service_def, service_access, open, reply) {
                OpenStep::Call { command, stage } => ask(
                    command,
                    Session::Start(StartStage::Opening(stage)),
                ),
                OpenStep::Opened => ask(Command::QueryStatus, Session::Start(StartStage::Inspect)),
                OpenStep::Failed { error, event } => Step {
                    event,
                    exit: None,
                    next: Next::Finished { result: Err(error) },
                },
            }
        },
        StartStage::Inspect => match reply {
            Reply::Failed(source) => fail(Error::Service { source }),
            Reply::Status(service_status) => {
                if service_status.current_state != ServiceState::StartPending
                    && service_status.current_state != ServiceState::Running {
                    ask(Command::Start, Session::Start(StartStage::Launch))
                } else {
                    succeed(Event::ServiceStarted { already_started: true })
                }
            },
            Reply::Done => fail(Error::Service { source: ProviderError::no_status() }),
        },
        StartStage::Launch => match reply {
            Reply::Failed(source) => fail(Error::Service { source }),
            _ => succeed(Event::ServiceStarted { already_started: false }),
        },
    }
}

/// Decides what a stop of the service `service_def` does after `stage`,
/// given the reply to the command made there.
pub fn stop_service(service_def: &ServiceDefinition, stage: StopStage, reply: Reply) -> (step: Step)
    ensures
        step@ == stop_next(service_def@, stage, reply@),
{
    match stage {
        StopStage::Opening(open) => {
            let service_access = ServiceAccess { bits: SERVICE_QUERY_STATUS | SERVICE_STOP };
            match open_service(service_def, service_access, open, reply) {
                OpenStep::Call { command, stage } => ask(
                    command,
                    Session::Stop(StopStage::Opening(stage)),
                ),
                OpenStep::Opened => ask(Command::QueryStatus, Session::Stop(StopStage::Inspect)),
                OpenStep::Failed { error, event } => Step {
                    event,
                    exit: None,
                    next: Next::Finished { result: Err(error) },
                },
            }
        },
        StopStage::Inspect => match reply {
            Reply::Failed(source) => fail(Error::Service { source }),
            Reply::Status(service_status) => {
                if service_status.current_state != ServiceState::StopPending
                    && service_status.current_state != ServiceState::Stopped {
                    ask(Command::Stop, Session::Stop(StopStage::Halt))
                } else {
                    succeed(Event::ServiceStopped { already_stopped: true })
                }
            },
            Reply::Done => fail(Error::Service { source: ProviderError::no_status() }),
        },
        StopStage::Halt => match reply {
            Reply::Failed(source) => fail(Error::Service { source }),
            _ => succeed(Event::ServiceStopped { already_stopped: false }),
        },
    }
}

/// The step of a restart that a step of its wait for the stop comes to.
fn restart_settling(step: EnsureStep) -> (next: Step)
    ensures
        next@ == settling_step(
            step@,
            |stage: PollStage| Session::Restart(RestartStage::Settle(stage)),
            CommandView::Start,
            Session::Restart(RestartStage::Launch),
        ),
{
    match step {
        EnsureStep::Call { command, stage } => ask(
            command,
            Session::Restart(RestartStage::Settle(stage)),
        ),
        EnsureStep::Finished { result: Err(error) } => fail(error),
        EnsureStep::Finished { result: Ok(service_status) } => Step {
            event: None,
            exit: Some(handle_service_exit_code(service_status.exit_code)),
            next: Next::Call {
                command: Command::Start,
                session: Session::Restart(RestartStage::Launch),
            },
        },
    }
}

/// The first step of the wait of a restart.
fn restart_settle() -> (step: Step)
    ensures
        step@ == settle_first(|stage: PollStage| Session::Restart(RestartStage::Settle(stage))),
{
    ask(
        Command::QueryStatus,
        Session::Restart(RestartStage::Settle(PollStage::Query { waited: Span::zero() })),
    )
}

/// Decides what a restart of the service `service_def` does after `stage`,
/// given the reply to the command made there.
pub fn restart_service(service_def: &ServiceDefinition, stage: RestartStage, reply: Reply) -> (step:
    Step)
    ensures
        step@ == restart_next(service_def@, stage, reply@),
{
    match stage {
        RestartStage::Opening(open) => {
            let service_access = ServiceAccess {
                bits: SERVICE_QUERY_STATUS | SERVICE_START | SERVICE_STOP,
            };
            match open_service(service_def, service_access, open, reply) {
                OpenStep::Call { command, stage } => ask(
                    command,
                    Session::Restart(RestartStage::Opening(stage)),
                ),
                OpenStep::Opened => ask(
                    Command::QueryStatus,
                    Session::Restart(RestartStage::Inspect),
                ),
                OpenStep::Failed { error, event } => Step {
                    event,
                    exit: None,
                    next: Next::Finished { result: Err(error) },
                },
            }
        },
        RestartStage::Inspect => match reply {
            Reply::Failed(source) => fail(Error::Service { source }),
            Reply::Status(service_status) => {
                if service_status.current_state == ServiceState::StartPending
                    || service_status.current_state == ServiceState::Running {
                    ask(Command::Stop, Session::Restart(RestartStage::Halt))
                } else {
                    restart_settle()
                }
            },
            Reply::Done => fail(Error::Service { source: ProviderError::no_status() }),
        },
        RestartStage::Halt => match reply {
            Reply::Failed(source) => fail(Error::Service { source }),
            _ => restart_settle(),
        },
        RestartStage::Settle(poll) => restart_settling(
            ensure_state(
                ServiceState::Stopped,
                Span::from_secs(STOP_TIMEOUT_SECS),
                Span::from_secs(STOP_WAIT_HINT_SECS),
                poll,
                reply,
            ),
        ),
        RestartStage::Launch => match reply {
            Reply::Failed(source) => fail(Error::Service { source }),
            _ => succeed(Event::ServiceRestarted),
        },
    }
}

/// Begins an install.
pub fn install_begin() -> (step: Step)
    ensures
        step@ == install_first(),
{
    let manager_access = ServiceManagerAccess {
        bits: SC_MANAGER_CONNECT | SC_MANAGER_CREATE_SERVICE,
    };
    ask(Command::Connect { manager_access }, Session::Install(InstallStage::Connect))
}

/// Decides what an install of the service `service_def` does after
/// `stage`, given the reply to the command made there.
pub fn install_service(service_def: &ServiceDefinition, stage: InstallStage, reply: Reply) -> (step:
    Step)
    ensures
        step@ == install_next(service_def@, stage, reply@),
{
    match stage {
        InstallStage::Connect => match reply {
            Reply::Failed(source) => fail(Error::Service { source }),
            _ => {
                let service_info = service_info(service_def);
                ask(
                    Command::CreateService {
                        info: service_info,
                        access: ServiceAccess { bits: 0 },
                    },
                    Session::Install(InstallStage::Create),
                )
            },
        },
        InstallStage::Create => match reply {
            Reply::Failed(source) => fail(Error::Service { source }),
            _ => succeed(Event::ServiceInstalled),
        },
    }
}

/// The step of an uninstall that a step of its wait for the stop comes to.
fn uninstall_settling(step: EnsureStep) -> (next: Step)
    ensures
        next@ == settling_step(
            step@,
            |stage: PollStage| Session::Uninstall(UninstallStage::Settle(stage)),
            CommandView::Delete,
            Session::Uninstall(UninstallStage::Remove),
        ),
{
    match step {
        EnsureStep::Call { command, stage } => ask(
            command,
            Session::Uninstall(UninstallStage::Settle(stage)),
        ),
        EnsureStep::Finished { result: Err(error) } => fail(error),
        EnsureStep::Finished { result: Ok(service_status) } => Step {
            event: None,
            exit: Some(handle_service_exit_code(service_status.exit_code)),
            next: Next::Call {
                command: Command::Delete,
                session: Session::Uninstall(UninstallStage::Remove),
            },
        },
    }
}

/// The first step of the wait of an uninstall, with `event` to announce.
fn uninstall_settle(event: Option<Event>) -> (step: Step)
    ensures
        step@ == (StepView {
            event,
            ..settle_first(|stage: PollStage| Session::Uninstall(UninstallStage::Settle(stage)))
        }),
{
    Step {
        event,
        exit: None,
        next: Next::Call {
            command: Command::QueryStatus,
            session: Session::Uninstall(
                UninstallStage::Settle(PollStage::Query { waited: Span::zero() }),
            ),
        },
    }
}

/// Decides what an uninstall of the service `service_def` does after
/// `stage`, given the reply to the command made there.
pub fn uninstall_service(service_def: &ServiceDefinition, stage: UninstallStage, reply: Reply) -> (step:
    Step)
    ensures
        step@ == uninstall_next(service_def@, stage, reply@),
{
    match stage {
        UninstallStage::Opening(open) => {
            let service_access = ServiceAccess {
                bits: SERVICE_QUERY_STATUS | SERVICE_STOP | SERVICE_DELETE,
            };
            match open_service(service_def, service_access, open, reply) {
                OpenStep::Call { command, stage } => ask(
                    command,
                    Session::Uninstall(UninstallStage::Opening(stage)),
                ),
                OpenStep::Opened => ask(
                    Command::QueryStatus,
                    Session::Uninstall(UninstallStage::Inspect),
                ),
                OpenStep::Failed { error, event } => Step {
                    event,
                    exit: None,
                    next: Next::Finished { result: Err(error) },
                },
            }
        },
        UninstallStage::Inspect => match reply {
            Reply::Failed(source) => fail(Error::Service { source }),
            Reply::Status(service_status) => {
                if service_status.current_state != ServiceState::Stopped {
                    ask(Command::Stop, Session::Uninstall(UninstallStage::Halt))
                } else {
                    uninstall_settle(None)
                }
            },
            Reply::Done => fail(Error::Service { source: ProviderError::no_status() }),
        },
        UninstallStage::Halt => match reply {
            Reply::Failed(source) => fail(Error::Service { source }),
            _ => uninstall_settle(Some(Event::ServiceStopped { already_stopped: false })),
        },
        UninstallStage::Settle(poll) => uninstall_settling(
            ensure_state(
                ServiceState::Stopped,
                Span::from_secs(STOP_TIMEOUT_SECS),
                Span::from_secs(STOP_WAIT_HINT_SECS),
                poll,
                reply,
            ),
        ),
        UninstallStage::Remove => match reply {
            Reply::Failed(source) => fail(Error::Service { source }),
            _ => succeed(Event::ServiceUninstalled),
        },
    }
}

/// Begins the control action `action`: names the first call to make.
pub fn control(action: ControlAction) -> (step: Step)
    ensures
        step@ == begin(action),
{
    let connect = Command::Connect {
            manager_access: ServiceManagerAccess { bits: SC_MANAGER_CONNECT },
        };
    match action {
        ControlAction::Start => ask(
            connect,
            Session::Start(StartStage::Opening(OpenStage::Connect)),
        ),
        ControlAction::Stop => ask(connect, Session::Stop(StopStage::Opening(OpenStage::Connect))),
        ControlAction::Restart => ask(
            connect,
            Session::Restart(RestartStage::Opening(OpenStage::Connect)),
        ),
        ControlAction::Install => install_begin(),
        ControlAction::Uninstall => ask(
            connect,
            Session::Uninstall(UninstallStage::Opening(OpenStage::Connect)),
        ),
    }
}

/// Carries the control action of `session` on: given the reply to the
/// command made last, names the next call to make, or ends the action.
pub fn resume(service_def: &ServiceDefinition, session: Session, reply: Reply) -> (step: Step)
    ensures
        step@ == next(service_def@, session, reply@),
{
    match session {
        Session::Start(stage) => start_service(service_def, stage, reply),
        Session::Stop(stage) => stop_service(service_def, stage, reply),
        Session::Restart(stage) => restart_service(service_def, stage, reply),
        Session::Install(stage) => install_service(service_def, stage, reply),
        Session::Uninstall(stage) => uninstall_service(service_def, stage, reply),
    }
}

} // verus!
