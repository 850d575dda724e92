//! Lifecycle control for a background service registered with the host's
//! service registry.
//!
//! The library holds the decisions; the caller holds the registry. Each
//! control action is a small state machine: it names the next call to make,
//! is told what the registry answered, and names the call after that, until
//! the action is complete. Nothing here blocks, sleeps or talks to the
//! operating system.

pub mod action;
pub mod control;
pub mod definition;
pub mod error;
pub mod poll;
pub mod provider;
pub mod run_loop;
pub mod status;
pub mod trace;

pub use action::ControlAction;
pub use control::{
    control, handle_service_exit_code, install_service, open_service, restart_service, resume,
    start_service, stop_service, uninstall_service,
};
pub use definition::{service_info, ServiceDefinition};
pub use error::{error_display, Error};
pub use poll::{ensure_state, poll_state};
pub use run_loop::{event_handler, run_begin, run_service};
pub use trace::replay;
