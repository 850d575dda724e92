use service_control::error::ProviderError;
use service_control::run_loop::{
    bootstrap_exit_code, event_handler, refusal_exit_code, run_begin, run_service, running_status,
    shutdown_exit_code,
    stopped_status, Handled, RunAction, RunEvent, RunStage, RunState, RunStep, ServiceControl,
    ServiceControlHandlerResult,
};
use service_control::status::{
    ServiceControlAccept, ServiceExitCode, ServiceState, ServiceStatus, ServiceType, Span,
    ERROR_FAIL_SHUTDOWN, NO_ERROR,
};

fn refusal() -> ProviderError {
    ProviderError {
        description: "IO error in winapi call".to_string(),
        os_error: Some("The handle is invalid. (os error 6)".to_string()),
        os_code: Some(6),
    }
}

/// Runs the loop against a host that answers each request with what `host`
/// makes of it, and writes down what was reported.
fn run_against(host: impl Fn(&RunAction) -> RunEvent) -> (Result<(), ProviderError>, Vec<RunAction>) {
    let mut asked = Vec::new();
    let mut step = run_begin();
    loop {
        match step {
            RunStep::Finished { result } => return (result, asked),
            RunStep::Call { action, stage } => {
                assert!(asked.len() < 100, "the run loop does not end");
                let event = host(&action);
                asked.push(action);
                step = run_service(stage, event);
            }
        }
    }
}

fn reports(asked: &[RunAction]) -> Vec<ServiceStatus> {
    asked
        .iter()
        .filter_map(|action| match action {
            RunAction::Report(status) => Some(*status),
            _ => None,
        })
        .collect()
}

#[test]
fn the_run_loop_registers_the_handler_first() {
    assert_eq!(run_begin(), RunStep::Call { action: RunAction::Register, stage: RunStage::Register });
}

#[test]
fn a_clean_shutdown_is_reported_with_no_error() {
    let (result, asked) = run_against(|_| RunEvent::Done);
    assert_eq!(result, Ok(()));
    assert_eq!(
        asked,
        vec![
            RunAction::Register,
            RunAction::Prepare,
            RunAction::Report(running_status()),
            RunAction::AwaitStop,
            RunAction::StopTopology,
            RunAction::Report(stopped_status(ServiceExitCode::Win32(0))),
        ]
    );
    let last = reports(&asked)[1];
    assert_eq!(last.current_state, ServiceState::Stopped);
    assert_eq!(last.exit_code, ServiceExitCode::Win32(0));
    assert_eq!(last.controls_accepted, ServiceControlAccept { bits: 0 });
}

#[test]
fn a_failed_shutdown_is_reported_with_the_shutdown_failure_code() {
    let (result, asked) = run_against(|action| match action {
        RunAction::StopTopology => RunEvent::ShutdownFailed,
        _ => RunEvent::Done,
    });
    assert_eq!(result, Ok(()));
    let all = reports(&asked);
    assert_eq!(all.len(), 2);
    assert_eq!(all[0], running_status());
    assert_eq!(all[1].current_state, ServiceState::Stopped);
    assert_eq!(all[1].exit_code, ServiceExitCode::Win32(351));
}

#[test]
fn an_application_that_fails_to_start_is_reported_as_stopped_with_its_code() {
    let (result, asked) = run_against(|action| match action {
        RunAction::Prepare => RunEvent::BootstrapFailed(78),
        _ => RunEvent::Done,
    });
    assert_eq!(result, Ok(()));
    assert_eq!(
        asked,
        vec![
            RunAction::Register,
            RunAction::Prepare,
            RunAction::Report(stopped_status(ServiceExitCode::ServiceSpecific(78))),
        ]
    );
}

#[test]
fn a_registration_that_is_refused_ends_the_loop_before_anything_starts() {
    let (result, asked) = run_against(|action| match action {
        RunAction::Register => RunEvent::Failed(refusal()),
        _ => RunEvent::Done,
    });
    assert_eq!(result, Err(refusal()));
    assert_eq!(asked, vec![RunAction::Register]);
}

#[test]
fn a_running_report_that_is_refused_is_followed_by_the_stopped_report() {
    let (result, asked) = run_against(|action| match action {
        RunAction::Report(status) if status.current_state == ServiceState::Running => {
            RunEvent::Failed(refusal())
        }
        _ => RunEvent::Done,
    });
    assert_eq!(result, Ok(()));
    assert_eq!(
        asked,
        vec![
            RunAction::Register,
            RunAction::Prepare,
            RunAction::Report(running_status()),
            RunAction::Report(stopped_status(ServiceExitCode::Win32(6))),
        ]
    );
    let last = reports(&asked)[1];
    assert_eq!(last.current_state, ServiceState::Stopped);
    assert_eq!(last.controls_accepted, ServiceControlAccept { bits: 0 });
}

#[test]
fn every_report_refused_ends_the_loop_with_the_refusal_of_the_stopped_report() {
    let (result, asked) = run_against(|action| match action {
        RunAction::Report(_) => RunEvent::Failed(refusal()),
        _ => RunEvent::Done,
    });
    assert_eq!(result, Err(refusal()));
    assert_eq!(
        asked,
        vec![
            RunAction::Register,
            RunAction::Prepare,
            RunAction::Report(running_status()),
            RunAction::Report(stopped_status(ServiceExitCode::Win32(6))),
        ]
    );
}

#[test]
fn a_refusal_is_reported_by_its_own_code_where_it_has_one() {
    assert_eq!(refusal_exit_code(&refusal()), ServiceExitCode::Win32(6));
    let mut other = refusal();
    other.os_code = Some(i32::MAX);
    assert_eq!(refusal_exit_code(&other), ServiceExitCode::Win32(0x7fff_ffff));
    other.os_code = Some(1);
    assert_eq!(refusal_exit_code(&other), ServiceExitCode::Win32(1));
    other.os_code = Some(0);
    assert_eq!(refusal_exit_code(&other), ServiceExitCode::Win32(351));
    other.os_code = Some(-3);
    assert_eq!(refusal_exit_code(&other), ServiceExitCode::Win32(351));
    other.os_code = None;
    assert_eq!(refusal_exit_code(&other), ServiceExitCode::Win32(351));
}

#[test]
fn a_stopped_report_that_is_refused_is_the_result_of_the_loop() {
    let (result, asked) = run_against(|action| match action {
        RunAction::Report(status) if status.current_state == ServiceState::Stopped => {
            RunEvent::Failed(refusal())
        }
        _ => RunEvent::Done,
    });
    assert_eq!(result, Err(refusal()));
    assert_eq!(asked.len(), 6);
}

#[test]
fn the_running_status_accepts_a_stop_and_nothing_else() {
    assert_eq!(
        running_status(),
        ServiceStatus {
            service_type: ServiceType { bits: 0x10 },
            current_state: ServiceState::Running,
            controls_accepted: ServiceControlAccept { bits: 0x1 },
            exit_code: ServiceExitCode::Win32(0),
            checkpoint: 0,
            wait_hint: Span { nanos: 0 },
            process_id: None,
        }
    );
}

#[test]
fn the_stopped_status_accepts_nothing_and_carries_the_exit_code() {
    assert_eq!(
        stopped_status(ServiceExitCode::ServiceSpecific(9)),
        ServiceStatus {
            service_type: ServiceType { bits: 0x10 },
            current_state: ServiceState::Stopped,
            controls_accepted: ServiceControlAccept { bits: 0 },
            exit_code: ServiceExitCode::ServiceSpecific(9),
            checkpoint: 0,
            wait_hint: Span { nanos: 0 },
            process_id: None,
        }
    );
}

#[test]
fn the_shutdown_codes_are_zero_and_three_hundred_and_fifty_one() {
    assert_eq!(NO_ERROR, 0);
    assert_eq!(ERROR_FAIL_SHUTDOWN, 351);
    assert_eq!(shutdown_exit_code(true), ServiceExitCode::Win32(0));
    assert_eq!(shutdown_exit_code(false), ServiceExitCode::Win32(351));
}

#[test]
fn a_bootstrap_code_keeps_its_bits() {
    assert_eq!(bootstrap_exit_code(0), ServiceExitCode::ServiceSpecific(0));
    assert_eq!(bootstrap_exit_code(78), ServiceExitCode::ServiceSpecific(78));
    assert_eq!(bootstrap_exit_code(i32::MAX), ServiceExitCode::ServiceSpecific(0x7fff_ffff));
    assert_eq!(bootstrap_exit_code(-1), ServiceExitCode::ServiceSpecific(0xffff_ffff));
    assert_eq!(bootstrap_exit_code(i32::MIN), ServiceExitCode::ServiceSpecific(0x8000_0000));
    for code in [-70000, -2, 1, 255, 65536] {
        assert_eq!(bootstrap_exit_code(code), ServiceExitCode::ServiceSpecific(code as u32));
    }
}

#[test]
fn an_interrogation_is_acknowledged_and_changes_nothing() {
    assert_eq!(
        event_handler(ServiceControl::Interrogate),
        Handled { result: ServiceControlHandlerResult::NoError, shutdown: false }
    );
}

#[test]
fn a_stop_request_is_acknowledged_and_signals_the_shutdown() {
    assert_eq!(
        event_handler(ServiceControl::Stop),
        Handled { result: ServiceControlHandlerResult::NoError, shutdown: true }
    );
}

#[test]
fn every_other_control_is_not_implemented() {
    for control in [
        ServiceControl::Continue,
        ServiceControl::NetBindAdd,
        ServiceControl::NetBindDisable,
        ServiceControl::NetBindEnable,
        ServiceControl::NetBindRemove,
        ServiceControl::ParamChange,
        ServiceControl::Pause,
        ServiceControl::Preshutdown,
        ServiceControl::Shutdown,
        ServiceControl::HardwareProfileChange,
        ServiceControl::PowerEvent,
        ServiceControl::SessionChange,
        ServiceControl::TimeChange,
        ServiceControl::TriggerEvent,
    ] {
        assert_eq!(
            event_handler(control),
            Handled { result: ServiceControlHandlerResult::NotImplemented, shutdown: false }
        );
    }
}

#[test]
fn a_second_stop_request_is_acknowledged_like_the_first() {
    assert_eq!(event_handler(ServiceControl::Stop), event_handler(ServiceControl::Stop));
    let step = run_service(RunStage::AwaitStop, RunEvent::Done);
    assert_eq!(
        step,
        RunStep::Call { action: RunAction::StopTopology, stage: RunStage::StopTopology }
    );
}

#[test]
fn an_event_that_is_not_done_is_a_failure_of_the_request() {
    let stopped = |exit_code| RunStep::Call {
        action: RunAction::Report(stopped_status(exit_code)),
        stage: RunStage::ReportStopped { exit_code },
    };
    assert_eq!(
        run_service(RunStage::Register, RunEvent::ShutdownFailed),
        RunStep::Finished { result: Err(ProviderError::unanswered()) }
    );
    assert_eq!(
        run_service(RunStage::Prepare, RunEvent::Failed(refusal())),
        stopped(ServiceExitCode::Win32(6))
    );
    assert_eq!(
        run_service(RunStage::Prepare, RunEvent::ShutdownFailed),
        stopped(ServiceExitCode::Win32(351))
    );
    assert_eq!(
        run_service(RunStage::ReportRunning, RunEvent::BootstrapFailed(3)),
        stopped(ServiceExitCode::ServiceSpecific(3))
    );
    assert_eq!(
        run_service(RunStage::AwaitStop, RunEvent::ShutdownFailed),
        RunStep::Call { action: RunAction::StopTopology, stage: RunStage::StopTopology }
    );
    assert_eq!(
        run_service(RunStage::StopTopology, RunEvent::Failed(refusal())),
        stopped(ServiceExitCode::Win32(351))
    );
    assert_eq!(
        run_service(
            RunStage::ReportStopped { exit_code: ServiceExitCode::Win32(351) },
            RunEvent::BootstrapFailed(3)
        ),
        RunStep::Finished { result: Err(ProviderError::unanswered()) }
    );
}

#[test]
fn whatever_comes_of_its_requests_the_loop_ends_within_six_of_them() {
    let events: [fn() -> RunEvent; 4] = [
        || RunEvent::Done,
        || RunEvent::Failed(refusal()),
        || RunEvent::BootstrapFailed(2),
        || RunEvent::ShutdownFailed,
    ];
    for first in 0..4 {
        for second in 0..4 {
            for third in 0..4 {
                let picks = [first, second, third];
                let mut asked: Vec<RunAction> = Vec::new();
                let mut step = run_begin();
                while let RunStep::Call { action, stage } = step {
                    let event = events[picks[asked.len() % 3]]();
                    asked.push(action);
                    assert!(asked.len() <= 6, "the run loop does not end");
                    step = run_service(stage, event);
                }
                let last = asked.last().unwrap();
                if asked.len() > 1 {
                    match last {
                        RunAction::Report(status) => {
                            assert_eq!(status.current_state, ServiceState::Stopped);
                            assert_eq!(status.controls_accepted, ServiceControlAccept { bits: 0 });
                        }
                        other => panic!("the loop ended on {:?}", other),
                    }
                } else {
                    assert_eq!(*last, RunAction::Register);
                    assert!(matches!(step, RunStep::Finished { result: Err(_) }));
                }
            }
        }
    }
}

#[test]
fn the_stages_pass_through_the_three_states_in_order() {
    assert_eq!(RunStage::Register.run_state(), RunState::Starting);
    assert_eq!(RunStage::Prepare.run_state(), RunState::Starting);
    assert_eq!(RunStage::ReportRunning.run_state(), RunState::Starting);
    assert_eq!(RunStage::AwaitStop.run_state(), RunState::Running);
    assert_eq!(RunStage::StopTopology.run_state(), RunState::Running);
    assert_eq!(
        RunStage::ReportStopped { exit_code: ServiceExitCode::Win32(0) }.run_state(),
        RunState::Stopped
    );
}

#[test]
fn each_stage_asks_for_what_it_waits_for() {
    assert_eq!(RunStage::Register.action(), RunAction::Register);
    assert_eq!(RunStage::Prepare.action(), RunAction::Prepare);
    assert_eq!(RunStage::ReportRunning.action(), RunAction::Report(running_status()));
    assert_eq!(RunStage::AwaitStop.action(), RunAction::AwaitStop);
    assert_eq!(RunStage::StopTopology.action(), RunAction::StopTopology);
    assert_eq!(
        RunStage::ReportStopped { exit_code: ServiceExitCode::ServiceSpecific(2) }.action(),
        RunAction::Report(stopped_status(ServiceExitCode::ServiceSpecific(2)))
    );
}
