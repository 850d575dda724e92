use service_control::action::ControlAction;
use service_control::control::ExitReport;
use service_control::definition::{service_info, ServiceDefinition};
use service_control::error::{error_display, Error, ProviderError};
use service_control::provider::{Command, Event, Reply, ServiceAccess, ServiceManagerAccess};
use service_control::status::{
    ServiceControlAccept, ServiceExitCode, ServiceState, ServiceStatus, ServiceType, Span,
};
use service_control::trace::{replay, Transcript};

fn vector() -> ServiceDefinition {
    ServiceDefinition {
        name: "vector".to_string(),
        display_name: "Vector".to_string(),
        description: "Observability data pipeline".to_string(),
        executable_path: "C:\\vector\\vector.exe".to_string(),
        launch_arguments: vec!["service".to_string()],
    }
}

fn in_state(state: ServiceState) -> Reply {
    Reply::Status(ServiceStatus {
        service_type: ServiceType { bits: 0x10 },
        current_state: state,
        controls_accepted: ServiceControlAccept { bits: 1 },
        exit_code: ServiceExitCode::Win32(0),
        checkpoint: 0,
        wait_hint: Span { nanos: 0 },
        process_id: None,
    })
}

fn missing() -> ProviderError {
    ProviderError {
        description: "IO error in winapi call".to_string(),
        os_error: Some(
            "The specified service does not exist as an installed service. (os error 1060)"
                .to_string(),
        ),
        os_code: Some(1060),
    }
}

fn connect() -> Command {
    Command::Connect { manager_access: ServiceManagerAccess { bits: 1 } }
}

fn open(bits: u32) -> Command {
    Command::OpenService { name: "vector".to_string(), access: ServiceAccess { bits } }
}

#[test]
fn an_action_without_replies_has_asked_for_the_connection_and_waits() {
    let transcript = replay(&vector(), ControlAction::Stop, &vec![]);
    assert_eq!(
        transcript,
        Transcript { commands: vec![connect()], events: vec![], exits: vec![], result: None }
    );
}

#[test]
fn a_start_played_against_a_stopped_service() {
    let replies = vec![Reply::Done, Reply::Done, in_state(ServiceState::Stopped), Reply::Done];
    let transcript = replay(&vector(), ControlAction::Start, &replies);
    assert_eq!(
        transcript,
        Transcript {
            commands: vec![connect(), open(0x14), Command::QueryStatus, Command::Start],
            events: vec![Event::ServiceStarted { already_started: false }],
            exits: vec![],
            result: Some(Ok(())),
        }
    );
}

#[test]
fn a_stop_played_against_a_running_service() {
    let replies = vec![
        Reply::Done,
        Reply::Done,
        in_state(ServiceState::Running),
        in_state(ServiceState::StopPending),
    ];
    let transcript = replay(&vector(), ControlAction::Stop, &replies);
    assert_eq!(
        transcript,
        Transcript {
            commands: vec![connect(), open(0x24), Command::QueryStatus, Command::Stop],
            events: vec![Event::ServiceStopped { already_stopped: false }],
            exits: vec![],
            result: Some(Ok(())),
        }
    );
}

#[test]
fn replies_left_over_are_not_read() {
    let replies = vec![
        Reply::Done,
        Reply::Done,
        in_state(ServiceState::Running),
        Reply::Failed(missing()),
        Reply::Failed(missing()),
    ];
    let transcript = replay(&vector(), ControlAction::Start, &replies);
    assert_eq!(transcript.result, Some(Ok(())));
    assert_eq!(transcript.commands.len(), 3);
    assert_eq!(transcript.events, vec![Event::ServiceStarted { already_started: true }]);
}

#[test]
fn replies_that_run_out_leave_the_action_waiting() {
    let replies = vec![Reply::Done, Reply::Done, in_state(ServiceState::Running)];
    let transcript = replay(&vector(), ControlAction::Restart, &replies);
    assert_eq!(transcript.result, None);
    assert_eq!(
        transcript.commands,
        vec![connect(), open(0x34), Command::QueryStatus, Command::Stop]
    );
}

#[test]
fn a_restart_played_against_a_service_that_does_not_stop() {
    let mut replies = vec![
        Reply::Done,
        Reply::Done,
        in_state(ServiceState::Running),
        in_state(ServiceState::StopPending),
    ];
    for _ in 0..10 {
        replies.push(in_state(ServiceState::Running));
        replies.push(Reply::Done);
    }
    let transcript = replay(&vector(), ControlAction::Restart, &replies);
    assert_eq!(
        transcript.result,
        Some(Err(Error::PollTimeout {
            state: ServiceState::Running,
            expected_state: ServiceState::Stopped,
            timeout: Span::from_secs(10),
        }))
    );
    assert!(!transcript.commands.contains(&Command::Start));
    let queries = transcript.commands.iter().filter(|c| **c == Command::QueryStatus).count();
    assert_eq!(queries, 11);
    assert_eq!(transcript.commands.len(), 4 + 10 + 9);
    assert!(transcript.events.is_empty());
}

#[test]
fn in_a_restart_no_stop_follows_a_start_and_the_start_follows_a_stopped_status() {
    let scripts = vec![
        vec![ServiceState::Running, ServiceState::Stopped],
        vec![ServiceState::Stopped, ServiceState::Stopped],
        vec![ServiceState::Paused, ServiceState::Paused, ServiceState::Stopped],
        vec![ServiceState::StartPending, ServiceState::Running, ServiceState::StopPending, ServiceState::Stopped],
    ];
    for states in scripts {
        let mut replies = vec![Reply::Done, Reply::Done, in_state(states[0])];
        if states[0] == ServiceState::Running || states[0] == ServiceState::StartPending {
            replies.push(Reply::Done);
        }
        for state in &states[1..] {
            replies.push(in_state(*state));
            replies.push(Reply::Done);
        }
        let transcript = replay(&vector(), ControlAction::Restart, &replies);
        assert_eq!(transcript.result, Some(Ok(())));
        let start = transcript.commands.iter().position(|c| *c == Command::Start).unwrap();
        assert_eq!(start, transcript.commands.len() - 1);
        assert_eq!(transcript.commands[start - 1], Command::QueryStatus);
        assert_eq!(replies[start - 1], in_state(ServiceState::Stopped));
        for later in &transcript.commands[start..] {
            assert_ne!(*later, Command::Stop);
        }
    }
}

#[test]
fn an_uninstall_deletes_directly_after_a_stopped_status() {
    let replies = vec![
        Reply::Done,
        Reply::Done,
        in_state(ServiceState::Running),
        Reply::Done,
        in_state(ServiceState::StopPending),
        Reply::Done,
        in_state(ServiceState::Stopped),
        Reply::Done,
    ];
    let transcript = replay(&vector(), ControlAction::Uninstall, &replies);
    assert_eq!(transcript.result, Some(Ok(())));
    let delete = transcript.commands.iter().position(|c| *c == Command::Delete).unwrap();
    assert_eq!(delete, transcript.commands.len() - 1);
    assert_eq!(transcript.commands[delete - 1], Command::QueryStatus);
    assert_eq!(replies[delete - 1], in_state(ServiceState::Stopped));
    assert_eq!(
        transcript.events,
        vec![Event::ServiceStopped { already_stopped: false }, Event::ServiceUninstalled]
    );
    assert_eq!(
        transcript.exits,
        vec![ExitReport { exit_code: ServiceExitCode::Win32(0), warning: None }]
    );
}

#[test]
fn a_missing_service_is_announced_once_by_every_action_that_opens_it() {
    let rights = [
        (ControlAction::Start, 0x14),
        (ControlAction::Stop, 0x24),
        (ControlAction::Restart, 0x34),
        (ControlAction::Uninstall, 0x1_0024),
    ];
    for (action, bits) in rights {
        let replies = vec![Reply::Done, Reply::Failed(missing()), in_state(ServiceState::Running)];
        let transcript = replay(&vector(), action, &replies);
        assert_eq!(
            transcript,
            Transcript {
                commands: vec![connect(), open(bits)],
                events: vec![Event::ServiceDoesNotExist],
                exits: vec![],
                result: Some(Err(Error::Service { source: missing() })),
            }
        );
    }
}

#[test]
fn an_install_played_to_the_end() {
    let definition = vector();
    let transcript = replay(&definition, ControlAction::Install, &vec![Reply::Done, Reply::Done]);
    assert_eq!(
        transcript,
        Transcript {
            commands: vec![
                Command::Connect { manager_access: ServiceManagerAccess { bits: 3 } },
                Command::CreateService {
                    info: service_info(&definition),
                    access: ServiceAccess { bits: 0 },
                },
            ],
            events: vec![Event::ServiceInstalled],
            exits: vec![],
            result: Some(Ok(())),
        }
    );
}

#[test]
fn the_record_of_a_service_leaves_the_description_out() {
    let definition = vector();
    let info = service_info(&definition);
    assert_eq!(info.name, "vector");
    assert_eq!(info.display_name, "Vector");
    assert_eq!(info.executable_path, "C:\\vector\\vector.exe");
    assert_eq!(info.launch_arguments, vec!["service".to_string()]);
    assert!(info.dependencies.is_empty());
    assert_eq!(info.account_name, None);
    assert_eq!(info.account_password, None);
    assert_eq!(info.service_type, ServiceType { bits: 0x10 });
}

#[test]
fn the_record_of_a_service_without_arguments_has_none() {
    let definition = ServiceDefinition {
        name: String::new(),
        display_name: String::new(),
        description: String::new(),
        executable_path: String::new(),
        launch_arguments: vec![],
    };
    let info = service_info(&definition);
    assert!(info.launch_arguments.is_empty());
    assert_eq!(info.name, "");
}

#[test]
fn a_failure_of_the_operating_system_is_shown_by_its_own_message() {
    assert_eq!(
        error_display(&missing()),
        "The specified service does not exist as an installed service. (os error 1060)"
    );
}

#[test]
fn any_other_failure_is_shown_by_its_description() {
    let error = ProviderError {
        description: "Invalid service name".to_string(),
        os_error: None,
        os_code: None,
    };
    assert_eq!(error_display(&error), "Invalid service name");
}

#[test]
fn a_replay_of_a_refused_opening_announces_no_missing_service() {
    let denied = ProviderError {
        description: "IO error in winapi call".to_string(),
        os_error: Some("Access is denied. (os error 5)".to_string()),
        os_code: Some(5),
    };
    let unnamed = ProviderError {
        description: "Invalid service name".to_string(),
        os_error: None,
        os_code: None,
    };
    for error in [denied, unnamed] {
        for (action, bits) in [
            (ControlAction::Start, 0x14),
            (ControlAction::Stop, 0x24),
            (ControlAction::Restart, 0x34),
            (ControlAction::Uninstall, 0x1_0024),
        ] {
            let replies = vec![Reply::Done, Reply::Failed(error.clone())];
            let transcript = replay(&vector(), action, &replies);
            assert_eq!(
                transcript,
                Transcript {
                    commands: vec![connect(), open(bits)],
                    events: vec![],
                    exits: vec![],
                    result: Some(Err(Error::Service { source: error.clone() })),
                }
            );
        }
    }
}

#[test]
fn only_the_code_of_the_operating_system_says_that_a_service_is_missing() {
    assert!(missing().is_missing_service());
    let mut other = missing();
    other.os_code = Some(1061);
    assert!(!other.is_missing_service());
    other.os_code = Some(-1060);
    assert!(!other.is_missing_service());
    other.os_code = None;
    assert!(!other.is_missing_service());
}

#[test]
fn an_uninstall_that_never_sees_the_service_stop_has_announced_only_its_stop() {
    let mut replies = vec![Reply::Done, Reply::Done, in_state(ServiceState::Paused), Reply::Done];
    for _ in 0..10 {
        replies.push(in_state(ServiceState::StopPending));
        replies.push(Reply::Done);
    }
    let transcript = replay(&vector(), ControlAction::Uninstall, &replies);
    assert_eq!(
        transcript.result,
        Some(Err(Error::PollTimeout {
            state: ServiceState::StopPending,
            expected_state: ServiceState::Stopped,
            timeout: Span::from_secs(10),
        }))
    );
    assert_eq!(transcript.events, vec![Event::ServiceStopped { already_stopped: false }]);
    assert!(!transcript.commands.contains(&Command::Delete));
    assert_eq!(transcript.commands.len(), 4 + 19);
    assert!(transcript.exits.is_empty());
}

#[test]
fn a_restart_succeeds_at_whichever_of_the_ten_looks_shows_the_service_stopped() {
    for looks in 1..=10usize {
        let mut replies = vec![Reply::Done, Reply::Done, in_state(ServiceState::Running), Reply::Done];
        for _ in 1..looks {
            replies.push(in_state(ServiceState::StopPending));
            replies.push(Reply::Done);
        }
        replies.push(in_state(ServiceState::Stopped));
        replies.push(Reply::Done);
        let transcript = replay(&vector(), ControlAction::Restart, &replies);
        assert_eq!(transcript.result, Some(Ok(())));
        assert_eq!(transcript.events, vec![Event::ServiceRestarted]);
        assert_eq!(transcript.commands.len(), 4 + (2 * looks - 1) + 1);
        assert_eq!(transcript.commands.last(), Some(&Command::Start));
        assert_eq!(
            transcript.exits,
            vec![ExitReport { exit_code: ServiceExitCode::Win32(0), warning: None }]
        );
    }
}

#[test]
fn a_registry_that_never_gives_a_status_fails_every_action_that_asks() {
    for action in [
        ControlAction::Start,
        ControlAction::Stop,
        ControlAction::Restart,
        ControlAction::Uninstall,
    ] {
        let replies = vec![Reply::Done; 40];
        let transcript = replay(&vector(), action, &replies);
        assert_eq!(
            transcript.result,
            Some(Err(Error::Service { source: ProviderError::no_status() }))
        );
        assert_eq!(transcript.commands.len(), 3);
        assert!(transcript.events.is_empty());
    }
}
