//! The ways in which a control action fails.

use crate::status::{ServiceState, Span};
use vstd::prelude::*;
use vstd::string::StringExecFns;

verus! {

/// The operating system's code for a service that the registry does not
/// hold.
pub const ERROR_SERVICE_DOES_NOT_EXIST: i32 = 1060;

/// A failure that the service registry reported, as it said it.
#[derive(Clone, Debug, PartialEq, Eq)]
pub struct ProviderError {
    /// What the provider says went wrong.
    pub description: String,
    /// The operating system's own message, where the failure came from a
    /// call into the operating system.
    pub os_error: Option<String>,
    /// The operating system's code for the failure, where it gave one.
    pub os_code: Option<i32>,
}

/// The mathematical content of a [`ProviderError`].
pub struct ProviderErrorView {
    pub description: Seq<char>,
    pub os_error: Option<Seq<char>>,
    pub os_code: Option<i32>,
}

impl View for ProviderError {
    type V = ProviderErrorView;

    open spec fn view(&self) -> ProviderErrorView {
        ProviderErrorView {
            description: self.description@,
            os_error: match self.os_error {
                Some(message) => Some(message@),
                None => None,
            },
            os_code: self.os_code,
        }
    }
}

/// Whether `error` says that the registry holds no service of the name
/// asked for: the operating system's code is the one for that, and no
/// other failure counts.
pub open spec fn missing_service(error: ProviderErrorView) -> bool {
    error.os_code == Some(ERROR_SERVICE_DOES_NOT_EXIST)
}

/// The failure of a registry that answers a status query without a status.
pub open spec fn no_status() -> ProviderErrorView {
    ProviderErrorView {
        description: "the reply to a status query carries no status"@,
        os_error: None,
        os_code: None,
    }
}

/// The failure of a host whose answer is none to the request made of it.
pub open spec fn unanswered() -> ProviderErrorView {
    ProviderErrorView {
        description: "the event does not answer the request"@,
        os_error: None,
        os_code: None,
    }
}

impl ProviderError {
    /// Whether the failure says that the registry holds no service of the
    /// name asked for.
    pub fn is_missing_service(&self) -> (missing: bool)
        ensures
            missing == missing_service(self@),
    {
        match self.os_code {
            Some(code) => code == ERROR_SERVICE_DOES_NOT_EXIST,
            None => false,
        }
    }

    /// The failure of a registry that answers a status query without a
    /// status.
    pub fn no_status() -> (error: ProviderError)
        ensures
            error@ == no_status(),
    {
        ProviderError {
            description: String::from_str("the reply to a status query carries no status"),
            os_error: None,
            os_code: None,
        }
    }

    /// The failure of a host whose answer is none to the request made of
    /// it.
    pub fn unanswered() -> (error: ProviderError)
        ensures
            error@ == unanswered(),
    {
        ProviderError {
            description: String::from_str("the event does not answer the request"),
            os_error: None,
            os_code: None,
        }
    }
}

/// The text shown for a provider failure: the operating system's message
/// where there is one, the provider's description otherwise.
pub open spec fn display_text(error: ProviderErrorView) -> Seq<char> {
    match error.os_error {
        Some(message) => message,
        None => error.description,
    }
}

/// The text to show an operator for a provider failure.
pub fn error_display(error: &ProviderError) -> (text: String)
    ensures
        text@ == display_text(error@),
{
    match &error.os_error {
        Some(message) => message.clone(),
        None => error.description.clone(),
    }
}

/// Why a control action failed.
#[derive(Clone, Debug, PartialEq, Eq)]
pub enum Error {
    /// A call into the service registry failed.
    Service { source: ProviderError },
    /// Every call succeeded, but the service did not reach the expected
    /// state in the time allowed.
    PollTimeout { state: ServiceState, expected_state: ServiceState, timeout: Span },
}

/// The mathematical content of an [`Error`].
pub enum ErrorView {
    Service { source: ProviderErrorView },
    PollTimeout { state: ServiceState, expected_state: ServiceState, timeout: Span },
}

impl View for Error {
    type V = ErrorView;

    open spec fn view(&self) -> ErrorView {
        match *self {
            Error::Service { source } => ErrorView::Service { source: source@ },
            Error::PollTimeout { state, expected_state, timeout } => ErrorView::PollTimeout {
                state,
                expected_state,
                timeout,
            },
        }
    }
}

} // verus!
