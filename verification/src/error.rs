//! The kinds of failure a request can end in, and how each is worded.

use vstd::prelude::*;
use vstd::string::*;

verus! {

/// HTTP status of a reply that carries a payload.
pub const STATUS_OK: u16 = 200;

/// HTTP status of a request that is malformed.
pub const STATUS_BAD_REQUEST: u16 = 400;

/// HTTP status of a request that names something outside an allow-list.
pub const STATUS_FORBIDDEN: u16 = 403;

/// HTTP status of an operational failure: a command that timed out, could
/// not be started or exited with a non-zero status.
pub const STATUS_INTERNAL: u16 = 500;

/// What kind of identifier an allow-list guards.
#[derive(Debug, Clone, Copy, PartialEq, Eq, Structural)]
pub enum Guarded {
    /// A service handed to the service manager.
    Service,
    /// A network interface used as the uplink.
    Uplink,
}

impl Guarded {
    /// The word that names this kind in an error message.
    pub open spec fn label_text(self) -> Seq<char> {
        match self {
            Guarded::Service => "service"@,
            Guarded::Uplink => "uplink"@,
        }
    }

    /// The word that names this kind in an error message.
    pub fn label(self) -> (r: &'static str)
        ensures
            r@ == self.label_text(),
    {
        match self {
            Guarded::Service => "service",
            Guarded::Uplink => "uplink",
        }
    }
}

/// Why a request did not produce a payload.
#[derive(Debug)]
pub enum ApiError {
    /// The request itself is ill-formed; the message says how.
    MalformedRequest { message: String },
    /// The request names an identifier that its allow-list does not hold.
    Forbidden { kind: Guarded, name: String },
    /// The command did not finish within its time bound.
    ExecutionTimeout { command: String },
    /// The command could not be started, or exited with a non-zero status.
    ExecutionFailure { detail: String },
}

/// Mathematical value of an [`ApiError`].
pub enum ApiErrorView {
    MalformedRequest { message: Seq<char> },
    Forbidden { kind: Guarded, name: Seq<char> },
    ExecutionTimeout { command: Seq<char> },
    ExecutionFailure { detail: Seq<char> },
}

impl ApiErrorView {
    /// The text shown to the caller for this error.
    pub open spec fn message(self) -> Seq<char> {
        match self {
            ApiErrorView::MalformedRequest { message } => message,
            ApiErrorView::Forbidden { kind, name } => kind.label_text() + " '"@ + name
                + "' not allowed"@,
            ApiErrorView::ExecutionTimeout { command } => "timeout running "@ + command,
            ApiErrorView::ExecutionFailure { detail } => detail,
        }
    }

    /// The HTTP status of a reply that reports this error: 400 for a
    /// malformed request, 403 for a forbidden one, 500 for a command that
    /// timed out or failed.
    pub open spec fn status(self) -> u16 {
        match self {
            ApiErrorView::MalformedRequest { .. } => STATUS_BAD_REQUEST,
            ApiErrorView::Forbidden { .. } => STATUS_FORBIDDEN,
            ApiErrorView::ExecutionTimeout { .. } => STATUS_INTERNAL,
            ApiErrorView::ExecutionFailure { .. } => STATUS_INTERNAL,
        }
    }
}

impl View for ApiError {
    type V = ApiErrorView;

    open spec fn view(&self) -> ApiErrorView {
        match self {
            ApiError::MalformedRequest { message } => ApiErrorView::MalformedRequest {
                message: message@,
            },
            ApiError::Forbidden { kind, name } => ApiErrorView::Forbidden {
                kind: *kind,
                name: name@,
            },
            ApiError::ExecutionTimeout { command } => ApiErrorView::ExecutionTimeout {
                command: command@,
            },
            ApiError::ExecutionFailure { detail } => ApiErrorView::ExecutionFailure {
                detail: detail@,
            },
        }
    }
}

impl ApiError {
    /// The text shown to the caller for this error.
    pub fn message(&self) -> (r: String)
        ensures
            r@ == self@.message(),
    {
        match self {
            ApiError::MalformedRequest { message } => message.clone(),
            ApiError::Forbidden { kind, name } => {
                let mut text = kind.label().to_owned();
                text.append(" '");
                text.append(name.as_str());
                text.append("' not allowed");
                text
            },
            ApiError::ExecutionTimeout { command } => {
                let mut text = "timeout running ".to_owned();
                text.append(command.as_str());
                text
            },
            ApiError::ExecutionFailure { detail } => detail.clone(),
        }
    }

    /// The HTTP status of a reply that reports this error.
    pub fn status(&self) -> (r: u16)
        ensures
            r == self@.status(),
    {
        match self {
            ApiError::MalformedRequest { .. } => STATUS_BAD_REQUEST,
            ApiError::Forbidden { .. } => STATUS_FORBIDDEN,
            ApiError::ExecutionTimeout { .. } => STATUS_INTERNAL,
            ApiError::ExecutionFailure { .. } => STATUS_INTERNAL,
        }
    }
}

} // verus!
