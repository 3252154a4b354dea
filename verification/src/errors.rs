//! Application error type shared by every domain.

use vstd::prelude::*;

verus! {

/// The kind of an application error, used to choose how callers react
/// (for example, only network errors are retried).
#[derive(Debug, PartialEq, Eq, Structural, Clone, Copy)]
pub enum ErrorKind {
    Network,
    Validation,
    Serialization,
    Internal,
    EventEmission,
    TimeTracking,
}

/// An application error: a kind and a human readable message.
#[derive(Debug)]
pub enum AppError {
    Network { message: String },
    Validation { message: String },
    Serialization { message: String },
    Internal { message: String },
    EventEmission { message: String },
    TimeTracking { message: String },
}

/// Result type of fallible application operations.
pub type AppResult<T> = Result<T, AppError>;

impl AppError {
    /// The kind of this error.
    pub open spec fn kind(self) -> ErrorKind {
        match self {
            AppError::Network { .. } => ErrorKind::Network,
            AppError::Validation { .. } => ErrorKind::Validation,
            AppError::Serialization { .. } => ErrorKind::Serialization,
            AppError::Internal { .. } => ErrorKind::Internal,
            AppError::EventEmission { .. } => ErrorKind::EventEmission,
            AppError::TimeTracking { .. } => ErrorKind::TimeTracking,
        }
    }

    /// The message carried by this error.
    pub open spec fn message(self) -> Seq<char> {
        match self {
            AppError::Network { message } => message@,
            AppError::Validation { message } => message@,
            AppError::Serialization { message } => message@,
            AppError::Internal { message } => message@,
            AppError::EventEmission { message } => message@,
            AppError::TimeTracking { message } => message@,
        }
    }
}

/// The message a constructor gives an error raised by `operation`:
/// "`operation`: `message`".
pub open spec fn operation_message(operation: Seq<char>, message: Seq<char>) -> Seq<char> {
    operation + ": "@ + message
}

/// The text an error is shown with: its kind, then its message.
pub open spec fn error_text(e: AppError) -> Seq<char> {
    match e {
        AppError::Network { message } => "Network error: "@ + message@,
        AppError::Validation { message } => "Validation error: "@ + message@,
        AppError::Serialization { message } => "Serialization error: "@ + message@,
        AppError::Internal { message } => "Internal error: "@ + message@,
        AppError::EventEmission { message } => "Event emission error: "@ + message@,
        AppError::TimeTracking { message } => "Time tracking error: "@ + message@,
    }
}

/// "`operation`: `message`".
fn compose_message(operation: &str, message: &str) -> (res: String)
    ensures
        res@ == operation_message(operation@, message@),
{
    String::from_str(operation).concat(": ").concat(message)
}

impl AppError {
    /// A network error raised by `operation`.
    pub fn network_error(operation: &str, message: &str) -> (res: AppError)
        ensures
            res.kind() == ErrorKind::Network,
            res.message() == operation_message(operation@, message@),
    {
        AppError::Network { message: compose_message(operation, message) }
    }

    /// A validation error raised by `operation`.
    pub fn validation_error(operation: &str, message: &str) -> (res: AppError)
        ensures
            res.kind() == ErrorKind::Validation,
            res.message() == operation_message(operation@, message@),
    {
        AppError::Validation { message: compose_message(operation, message) }
    }

    /// A serialization error raised by `operation`.
    pub fn serialization_error(operation: &str, message: &str) -> (res: AppError)
        ensures
            res.kind() == ErrorKind::Serialization,
            res.message() == operation_message(operation@, message@),
    {
        AppError::Serialization { message: compose_message(operation, message) }
    }

    /// A internal error raised by `operation`.
    pub fn internal_error(operation: &str, message: &str) -> (res: AppError)
        ensures
            res.kind() == ErrorKind::Internal,
            res.message() == operation_message(operation@, message@),
    {
        AppError::Internal { message: compose_message(operation, message) }
    }

    /// A eventemission error raised by `operation`.
    pub fn event_emission_error(operation: &str, message: &str) -> (res: AppError)
        ensures
            res.kind() == ErrorKind::EventEmission,
            res.message() == operation_message(operation@, message@),
    {
        AppError::EventEmission { message: compose_message(operation, message) }
    }

    /// A timetracking error raised by `operation`.
    pub fn time_tracking_error(operation: &str, message: &str) -> (res: AppError)
        ensures
            res.kind() == ErrorKind::TimeTracking,
            res.message() == operation_message(operation@, message@),
    {
        AppError::TimeTracking { message: compose_message(operation, message) }
    }

    /// The text this error is shown with.
    pub fn to_string(&self) -> (res: String)
        ensures
            res@ == error_text(*self),
    {
        match self {
            AppError::Network { message } => String::from_str("Network error: ").concat(message.as_str()),
            AppError::Validation { message } => String::from_str("Validation error: ").concat(message.as_str()),
            AppError::Serialization { message } => String::from_str("Serialization error: ").concat(message.as_str()),
            AppError::Internal { message } => String::from_str("Internal error: ").concat(message.as_str()),
            AppError::EventEmission { message } => String::from_str("Event emission error: ").concat(message.as_str()),
            AppError::TimeTracking { message } => String::from_str("Time tracking error: ").concat(message.as_str()),
        }
    }

    /// The kind of this error.
    pub fn error_kind(&self) -> (res: ErrorKind)
        ensures
            res == self.kind(),
    {
        match self {
            AppError::Network { .. } => ErrorKind::Network,
            AppError::Validation { .. } => ErrorKind::Validation,
            AppError::Serialization { .. } => ErrorKind::Serialization,
            AppError::Internal { .. } => ErrorKind::Internal,
            AppError::EventEmission { .. } => ErrorKind::EventEmission,
            AppError::TimeTracking { .. } => ErrorKind::TimeTracking,
        }
    }
}

} // verus!
