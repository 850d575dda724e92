//! The entry point of the running service.
//!
//! The service starts, runs until it is told to stop, shuts its pipeline
//! down and reports how that went. The operating system, the application
//! and the pipeline are the caller's; what is reported, and when, is decided
//! here. The caller performs each [`RunAction`] and hands back what came of
//! it as a [`RunEvent`].

use crate::error::{unanswered, ProviderError, ProviderErrorView};
use crate::status::{
    ServiceControlAccept, ServiceExitCode, ServiceState, ServiceStatus, ServiceType, Span,
    ERROR_FAIL_SHUTDOWN, NO_ERROR, SERVICE_ACCEPT_STOP, SERVICE_WIN32_OWN_PROCESS,
};
use vstd::prelude::*;

verus! {

/// A control request that the operating system delivers to a service.
#[derive(Clone, Copy, Debug, PartialEq, Eq, Structural)]
pub enum ServiceControl {
    Continue,
    Interrogate,
    NetBindAdd,
    NetBindDisable,
    NetBindEnable,
    NetBindRemove,
    ParamChange,
    Pause,
    Preshutdown,
    Shutdown,
    Stop,
    HardwareProfileChange,
    PowerEvent,
    SessionChange,
    TimeChange,
    TriggerEvent,
}

/// The answer that a control handler gives the operating system.
#[derive(Clone, Copy, Debug, PartialEq, Eq, Structural)]
pub enum ServiceControlHandlerResult {
    NoError,
    NotImplemented,
}

/// What the control handler does with one request.
#[derive(Clone, Copy, Debug, PartialEq, Eq, Structural)]
pub struct Handled {
    /// The answer to give the operating system.
    pub result: ServiceControlHandlerResult,
    /// Whether to send the shutdown signal to the run loop.
    pub shutdown: bool,
}

/// What the control handler does with `control_event`.
pub open spec fn handled(control_event: ServiceControl) -> Handled {
    match control_event {
        ServiceControl::Interrogate => Handled {
            result: ServiceControlHandlerResult::NoError,
            shutdown: false,
        },
        ServiceControl::Stop => Handled {
            result: ServiceControlHandlerResult::NoError,
            shutdown: true,
        },
        _ => Handled { result: ServiceControlHandlerResult::NotImplemented, shutdown: false },
    }
}

/// Handles one control request. It never blocks: the caller sends the
/// shutdown signal, if one is due, without waiting.
///
/// An interrogation is acknowledged and changes nothing. A stop request is
/// acknowledged and signals the run loop. Nothing else is implemented.
pub fn event_handler(control_event: ServiceControl) -> (outcome: Handled)
    ensures
        outcome == handled(control_event),
        outcome.shutdown <==> control_event == ServiceControl::Stop,
{
    match control_event {
        ServiceControl::Interrogate => Handled {
            result: ServiceControlHandlerResult::NoError,
            shutdown: false,
        },
        ServiceControl::Stop => Handled {
            result: ServiceControlHandlerResult::NoError,
            shutdown: true,
        },
        _ => Handled { result: ServiceControlHandlerResult::NotImplemented, shutdown: false },
    }
}

/// The status of the running service: it runs in its own process, accepts a
/// stop request and has no error to report.
pub open spec fn running() -> ServiceStatus {
    ServiceStatus {
        service_type: ServiceType { bits: SERVICE_WIN32_OWN_PROCESS },
        current_state: ServiceState::Running,
        controls_accepted: ServiceControlAccept { bits: SERVICE_ACCEPT_STOP },
        exit_code: ServiceExitCode::Win32(NO_ERROR),
        checkpoint: 0,
        wait_hint: Span { nanos: 0 },
        process_id: None,
    }
}

/// The status of the stopped service: it accepts no control and ended with
/// `exit_code`.
pub open spec fn stopped(exit_code: ServiceExitCode) -> ServiceStatus {
    ServiceStatus {
        service_type: ServiceType { bits: SERVICE_WIN32_OWN_PROCESS },
        current_state: ServiceState::Stopped,
        controls_accepted: ServiceControlAccept { bits: 0 },
        exit_code,
        checkpoint: 0,
        wait_hint: Span { nanos: 0 },
        process_id: None,
    }
}

/// The status to report once the application is up.
pub fn running_status() -> (status: ServiceStatus)
    ensures
        status == running(),
{
    ServiceStatus {
        service_type: ServiceType { bits: SERVICE_WIN32_OWN_PROCESS },
        current_state: ServiceState::Running,
        controls_accepted: ServiceControlAccept { bits: SERVICE_ACCEPT_STOP },
        exit_code: ServiceExitCode::Win32(NO_ERROR),
        checkpoint: 0,
        wait_hint: Span::zero(),
        process_id: None,
    }
}

/// The status to report once the service has ended with `exit_code`.
pub fn stopped_status(exit_code: ServiceExitCode) -> (status: ServiceStatus)
    ensures
        status == stopped(exit_code),
{
    ServiceStatus {
        service_type: ServiceType { bits: SERVICE_WIN32_OWN_PROCESS },
        current_state: ServiceState::Stopped,
        controls_accepted: ServiceControlAccept { bits: 0 },
        exit_code,
        checkpoint: 0,
        wait_hint: Span::zero(),
        process_id: None,
    }
}

/// The exit code of a service whose application failed to start with
/// `code`: the same 32 bits, read as an unsigned number.
pub open spec fn bootstrap_failure(code: i32) -> ServiceExitCode {
    if code >= 0 {
        ServiceExitCode::ServiceSpecific(code as u32)
    } else {
        ServiceExitCode::ServiceSpecific((code + 0x1_0000_0000) as u32)
    }
}

/// The exit code of a service whose pipeline was shut down, cleanly or not.
pub open spec fn shutdown_result(clean: bool) -> ServiceExitCode {
    if clean {
        ServiceExitCode::Win32(NO_ERROR)
    } else {
        ServiceExitCode::Win32(ERROR_FAIL_SHUTDOWN)
    }
}

/// The exit code to report when the application failed to start with `code`.
pub fn bootstrap_exit_code(code: i32) -> (exit_code: ServiceExitCode)
    ensures
        exit_code == bootstrap_failure(code),
        exit_code is ServiceSpecific,
{
    if code >= 0 {
        ServiceExitCode::ServiceSpecific(code as u32)
    } else {
        let wide: i64 = code as i64;
        ServiceExitCode::ServiceSpecific((wide + 0x1_0000_0000) as u32)
    }
}

/// The exit code to report after the pipeline was shut down.
pub fn shutdown_exit_code(clean: bool) -> (exit_code: ServiceExitCode)
    ensures
        exit_code == shutdown_result(clean),
        clean ==> exit_code == ServiceExitCode::Win32(0),
        !clean ==> exit_code == ServiceExitCode::Win32(351),
{
    if clean {
        ServiceExitCode::Win32(NO_ERROR)
    } else {
        ServiceExitCode::Win32(ERROR_FAIL_SHUTDOWN)
    }
}

/// Where the run loop stands: what it has asked for and not yet heard of.
#[derive(Clone, Copy, Debug, PartialEq, Eq)]
pub enum RunStage {
    /// The control handler is being registered.
    Register,
    /// The application is being prepared.
    Prepare,
    /// The running status is being reported.
    ReportRunning,
    /// The loop is blocked until the shutdown signal arrives.
    AwaitStop,
    /// The pipeline is being shut down.
    StopTopology,
    /// The stopped status is being reported, with this exit code.
    ReportStopped { exit_code: ServiceExitCode },
}

/// The three states that a service passes through, in this order.
#[derive(Clone, Copy, Debug, PartialEq, Eq, Structural)]
pub enum RunState {
    Starting,
    Running,
    Stopped,
}

impl RunState {
    /// The place of the state in the order of states.
    pub open spec fn rank(self) -> nat {
        match self {
            RunState::Starting => 0,
            RunState::Running => 1,
            RunState::Stopped => 2,
        }
    }
}

impl RunStage {
    /// The place of the stage in the order in which the loop passes through
    /// its stages.
    pub open spec fn order(self) -> nat {
        match self {
            RunStage::Register => 0,
            RunStage::Prepare => 1,
            RunStage::ReportRunning => 2,
            RunStage::AwaitStop => 3,
            RunStage::StopTopology => 4,
            RunStage::ReportStopped { .. } => 5,
        }
    }

    /// The state that the service is in at this stage.
    pub open spec fn state(self) -> RunState {
        match self {
            RunStage::Register | RunStage::Prepare | RunStage::ReportRunning => RunState::Starting,
            RunStage::AwaitStop | RunStage::StopTopology => RunState::Running,
            RunStage::ReportStopped { .. } => RunState::Stopped,
        }
    }

    /// The request that is outstanding at this stage.
    pub open spec fn pending(self) -> RunAction {
        match self {
            RunStage::Register => RunAction::Register,
            RunStage::Prepare => RunAction::Prepare,
            RunStage::ReportRunning => RunAction::Report(running()),
            RunStage::AwaitStop => RunAction::AwaitStop,
            RunStage::StopTopology => RunAction::StopTopology,
            RunStage::ReportStopped { exit_code } => RunAction::Report(stopped(exit_code)),
        }
    }

    /// The state that the service is in at this stage.
    pub fn run_state(&self) -> (state: RunState)
        ensures
            state == self.state(),
    {
        match self {
            RunStage::Register | RunStage::Prepare | RunStage::ReportRunning => RunState::Starting,
            RunStage::AwaitStop | RunStage::StopTopology => RunState::Running,
            RunStage::ReportStopped { .. } => RunState::Stopped,
        }
    }

    /// The request to make at this stage.
    pub fn action(&self) -> (action: RunAction)
        ensures
            action == self.pending(),
    {
        match self {
            RunStage::Register => RunAction::Register,
            RunStage::Prepare => RunAction::Prepare,
            RunStage::ReportRunning => RunAction::Report(running_status()),
            RunStage::AwaitStop => RunAction::AwaitStop,
            RunStage::StopTopology => RunAction::StopTopology,
            RunStage::ReportStopped { exit_code } => RunAction::Report(stopped_status(*exit_code)),
        }
    }
}

/// What the run loop asks its caller to do next.
#[derive(Clone, Copy, Debug, PartialEq, Eq)]
pub enum RunAction {
    /// Register the control handler with the operating system.
    Register,
    /// Build and start the application.
    Prepare,
    /// Report this status to the operating system.
    Report(ServiceStatus),
    /// Block until the control handler sends the shutdown signal.
    AwaitStop,
    /// Shut the pipeline down and wait until that is done.
    StopTopology,
}

/// What came of the request that the run loop made last.
#[derive(Clone, Debug, PartialEq, Eq)]
pub enum RunEvent {
    /// It was done.
    Done,
    /// The operating system refused it.
    Failed(ProviderError),
    /// The application failed to start, with this code.
    BootstrapFailed(i32),
    /// The pipeline failed to shut down.
    ShutdownFailed,
}

/// The mathematical content of a [`RunEvent`].
pub enum RunEventView {
    Done,
    Failed(ProviderErrorView),
    BootstrapFailed(i32),
    ShutdownFailed,
}

impl View for RunEvent {
    type V = RunEventView;

    open spec fn view(&self) -> RunEventView {
        match *self {
            RunEvent::Done => RunEventView::Done,
            RunEvent::Failed(error) => RunEventView::Failed(error@),
            RunEvent::BootstrapFailed(code) => RunEventView::BootstrapFailed(code),
            RunEvent::ShutdownFailed => RunEventView::ShutdownFailed,
        }
    }
}

/// One step of the run loop: the next request, or the end.
#[derive(Debug, PartialEq, Eq)]
pub enum RunStep {
    /// Perform `action`, then hand what came of it to [`run_service`],
    /// together with `stage`.
    Call { action: RunAction, stage: RunStage },
    /// The run loop has ended, with this result.
    Finished { result: Result<(), ProviderError> },
}

/// The mathematical content of a [`RunStep`].
pub enum RunStepView {
    Call { action: RunAction, stage: RunStage },
    Finished { result: Result<(), ProviderErrorView> },
}

impl View for RunStep {
    type V = RunStepView;

    open spec fn view(&self) -> RunStepView {
        match *self {
            RunStep::Call { action, stage } => RunStepView::Call { action, stage },
            RunStep::Finished { result } => RunStepView::Finished {
                result: match result {
                    Ok(()) => Ok(()),
                    Err(error) => Err(error@),
                },
            },
        }
    }
}

/// The step that moves the run loop to `stage`.
pub open spec fn proceed(stage: RunStage) -> RunStepView {
    RunStepView::Call { action: stage.pending(), stage }
}

/// The first step of the run loop.
pub open spec fn first_step() -> RunStepView {
    proceed(RunStage::Register)
}

/// The exit code that stands for a refusal by the operating system: its own
/// code for the refusal where it gave one, the code of a failed shutdown
/// where it gave none.
pub open spec fn refusal_code(error: ProviderErrorView) -> ServiceExitCode {
    match error.os_code {
        Some(code) => if code > 0 {
            ServiceExitCode::Win32(code as u32)
        } else {
            ServiceExitCode::Win32(ERROR_FAIL_SHUTDOWN)
        },
        None => ServiceExitCode::Win32(ERROR_FAIL_SHUTDOWN),
    }
}

/// The exit code that `event` calls for, where the service ends on it.
pub open spec fn event_code(event: RunEventView) -> ServiceExitCode {
    match event {
        RunEventView::Done => shutdown_result(true),
        RunEventView::Failed(error) => refusal_code(error),
        RunEventView::BootstrapFailed(code) => bootstrap_failure(code),
        RunEventView::ShutdownFailed => shutdown_result(false),
    }
}

/// The failure with which the loop ends on `event`: the refusal itself, or
/// the failure of a host that does not answer what it is asked.
pub open spec fn refusal(event: RunEventView) -> ProviderErrorView {
    match event {
        RunEventView::Failed(error) => error,
        _ => unanswered(),
    }
}

/// The step that follows `stage` once the outstanding request came to
/// `event`. Every event but `Done` is a failure of the request.
///
/// The handler is registered before anything else; if that fails, the loop
/// ends with the failure, for there is nothing to report with. An
/// application that fails to start is reported as stopped, with its code as
/// the exit code. One that starts is reported as running; if the operating
/// system refuses that report, the service is reported as stopped, with
/// the code of the refusal. The loop then waits for the shutdown signal,
/// shuts the pipeline down and reports the service as stopped, with an exit
/// code that says whether the shutdown was clean. The loop ends when the
/// stop is reported, in success if the report was taken.
pub open spec fn next_step(stage: RunStage, event: RunEventView) -> RunStepView {
    match stage {
        RunStage::Register => if event is Done {
            proceed(RunStage::Prepare)
        } else {
            RunStepView::Finished { result: Err(refusal(event)) }
        },
        RunStage::Prepare => if event is Done {
            proceed(RunStage::ReportRunning)
        } else {
            proceed(RunStage::ReportStopped { exit_code: event_code(event) })
        },
        RunStage::ReportRunning => if event is Done {
            proceed(RunStage::AwaitStop)
        } else {
            proceed(RunStage::ReportStopped { exit_code: event_code(event) })
        },
        RunStage::AwaitStop => proceed(RunStage::StopTopology),
        RunStage::StopTopology => proceed(
            RunStage::ReportStopped { exit_code: shutdown_result(event is Done) },
        ),
        RunStage::ReportStopped { .. } => if event is Done {
            RunStepView::Finished { result: Ok(()) }
        } else {
            RunStepView::Finished { result: Err(refusal(event)) }
        },
    }
}

/// Begins the run loop: the control handler is registered first, so that a
/// control request that arrives while the application starts is answered.
pub fn run_begin() -> (step: RunStep)
    ensures
        step@ == first_step(),
{
    proceed_to(RunStage::Register)
}

/// The step that asks for what `stage` waits for.
fn proceed_to(stage: RunStage) -> (step: RunStep)
    ensures
        step@ == proceed(stage),
{
    RunStep::Call { action: stage.action(), stage }
}

/// The exit code to report when the operating system refused a report.
pub fn refusal_exit_code(error: &ProviderError) -> (exit_code: ServiceExitCode)
    ensures
        exit_code == refusal_code(error@),
{
    match error.os_code {
        Some(code) => if code > 0 {
            ServiceExitCode::Win32(code as u32)
        } else {
            ServiceExitCode::Win32(ERROR_FAIL_SHUTDOWN)
        },
        None => ServiceExitCode::Win32(ERROR_FAIL_SHUTDOWN),
    }
}

/// The exit code to report when the service ends on `event`.
fn event_exit_code(event: &RunEvent) -> (exit_code: ServiceExitCode)
    ensures
        exit_code == event_code(event@),
{
    match event {
        RunEvent::Done => shutdown_exit_code(true),
        RunEvent::Failed(error) => refusal_exit_code(error),
        RunEvent::BootstrapFailed(code) => bootstrap_exit_code(*code),
        RunEvent::ShutdownFailed => shutdown_exit_code(false),
    }
}

/// The step that ends the loop on `event`.
fn finish(event: RunEvent) -> (step: RunStep)
    ensures
        step@ == (RunStepView::Finished {
            result: if event@ is Done {
                Ok(())
            } else {
                Err(refusal(event@))
            },
        }),
{
    match event {
        RunEvent::Done => RunStep::Finished { result: Ok(()) },
        RunEvent::Failed(error) => RunStep::Finished { result: Err(error) },
        _ => RunStep::Finished { result: Err(ProviderError::unanswered()) },
    }
}

/// Decides what the run loop does after `stage`, given what came of the
/// request made there.
pub fn run_service(stage: RunStage, event: RunEvent) -> (step: RunStep)
    ensures
        step@ == next_step(stage, event@),
        step matches RunStep::Call { action, stage: next } ==> action == next.pending()
            && stage.order() < next.order() && stage.state().rank() <= next.state().rank(),
        step is Finished ==> stage is Register || stage is ReportStopped,
        step matches RunStep::Finished { result: Ok(_) } ==> stage is ReportStopped,
{
    let done = matches!(event, RunEvent::Done);
    match stage {
        RunStage::Register => if done {
            proceed_to(RunStage::Prepare)
        } else {
            finish(event)
        },
        RunStage::Prepare => if done {
            proceed_to(RunStage::ReportRunning)
        } else {
            proceed_to(RunStage::ReportStopped { exit_code: event_exit_code(&event) })
        },
        RunStage::ReportRunning => if done {
            proceed_to(RunStage::AwaitStop)
        } else {
            proceed_to(RunStage::ReportStopped { exit_code: event_exit_code(&event) })
        },
        RunStage::AwaitStop => proceed_to(RunStage::StopTopology),
        RunStage::StopTopology => proceed_to(
            RunStage::ReportStopped { exit_code: shutdown_exit_code(done) },
        ),
        RunStage::ReportStopped { .. } => finish(event),
    }
}

/// What the run loop did, as far as the events given to it reach.
pub struct ServiceRun {
    /// The requests made, in order.
    pub actions: Seq<RunAction>,
    /// How the loop ended; `None` while it waits for another event.
    pub result: Option<Result<(), ProviderErrorView>>,
}

/// What the run loop does from `step` on, when its requests come to
/// `events`, in order.
pub open spec fn service_follow(step: RunStepView, events: Seq<RunEventView>) -> ServiceRun
    decreases events.len(),
{
    match step {
        RunStepView::Finished { result } => ServiceRun {
            actions: Seq::empty(),
            result: Some(result),
        },
        RunStepView::Call { action, stage } => if events.len() == 0 {
            ServiceRun { actions: seq![action], result: None }
        } else {
            let rest = service_follow(next_step(stage, events[0]), events.drop_first());
            ServiceRun { actions: seq![action] + rest.actions, result: rest.result }
        },
    }
}

/// What the whole run loop does when its requests come to `events`, in
/// order.
pub open spec fn service_run(events: Seq<RunEventView>) -> ServiceRun {
    service_follow(first_step(), events)
}

/// Whether `action` reports the service as stopped, with no control
/// accepted any more.
pub open spec fn reports_stop(action: RunAction) -> bool {
    action matches RunAction::Report(status) && status.current_state == ServiceState::Stopped
        && status.controls_accepted.bits == 0
}

/// From any stage on, the run loop asks for no more than is left of its six
/// requests, and has ended once they are answered; and when it has ended,
/// it has reported the stop last, unless it ended at the registration.
proof fn lemma_run_ends(stage: RunStage, events: Seq<RunEventView>)
    ensures
        ({
            let run = service_follow(proceed(stage), events);
            &&& 1 <= run.actions.len() <= 6 - stage.order()
            &&& events.len() >= 6 - stage.order() ==> run.result is Some
            &&& run.result is Some ==> reports_stop(run.actions.last()) || (run.actions
                == seq![RunAction::Register] && run.result matches Some(Err(_)))
            &&& run.result == Some(Ok::<(), ProviderErrorView>(())) ==> reports_stop(
                run.actions.last(),
            )
        }),
    decreases events.len(),
{
    if events.len() > 0 {
        let after = next_step(stage, events[0]);
        let rest = service_follow(after, events.drop_first());
        let run = service_follow(proceed(stage), events);
        match after {
            RunStepView::Finished { .. } => {
                assert(run.actions =~= seq![stage.pending()]);
            },
            RunStepView::Call { stage: later, .. } => {
                lemma_run_ends(later, events.drop_first());
                assert(run.actions.last() == rest.actions.last());
                assert(run.actions[0] == stage.pending());
                assert(run.actions.len() >= 2);
            },
        }
    }
}

/// Whatever comes of its requests, the run loop makes six of them at the
/// most and has ended once six are answered.
pub proof fn the_run_loop_ends(events: Seq<RunEventView>)
    ensures
        1 <= service_run(events).actions.len() <= 6,
        events.len() >= 6 ==> service_run(events).result is Some,
{
    lemma_run_ends(RunStage::Register, events);
}

/// However the application, its pipeline and the reports fare, a run loop
/// that has ended has reported the service as stopped, with no control
/// accepted any more, and that is the last thing it did. The one exception
/// is a loop whose handler could not be registered: it has nothing to
/// report with, and ends in that failure.
pub proof fn a_finished_run_has_reported_the_stop(events: Seq<RunEventView>)
    requires
        service_run(events).result is Some,
    ensures
        service_run(events).actions.len() >= 1,
        reports_stop(service_run(events).actions.last()) || (service_run(events).actions
            == seq![RunAction::Register] && service_run(events).result matches Some(Err(_))),
        service_run(events).result == Some(Ok::<(), ProviderErrorView>(())) ==> reports_stop(
            service_run(events).actions.last(),
        ),
{
    lemma_run_ends(RunStage::Register, events);
}

} // verus!
