//! The error taxonomy and its mapping to process exit codes.

use vstd::prelude::*;

verus! {

/// The closed set of failures the service can produce.
///
/// An error is constructed at the point of failure, propagated upward
/// unchanged (the original cause is kept verbatim in the payload), and
/// consumed at the process boundary to select an exit code and a log line.
#[derive(Debug, Clone)]
pub enum BotError {
    /// Startup misconfiguration; recoverable only by operator action.
    Config(String),
    /// A failure reported by the messaging platform while the service ran.
    Telegram(String),
    /// A programming defect; always surfaced, never silently ignored.
    Internal(String),
}

/// Result alias used throughout the library.
pub type BotResult<T> = Result<T, BotError>;

impl BotError {
    /// The exit code that this error selects at the process boundary:
    /// a configuration error aborts startup with 1, failures while the
    /// service was already running terminate it with 2.
    pub open spec fn spec_exit_code(&self) -> int {
        match self {
            BotError::Config(_) => 1,
            BotError::Telegram(_) => 2,
            BotError::Internal(_) => 2,
        }
    }

    /// Selects the process exit code for this error.
    pub fn exit_code(&self) -> (code: i32)
        ensures
            code == self.spec_exit_code(),
    {
        match self {
            BotError::Config(_) => 1,
            BotError::Telegram(_) => 2,
            BotError::Internal(_) => 2,
        }
    }

    /// The log line for this error: a fixed prefix naming the kind,
    /// followed by the original cause, verbatim.
    pub open spec fn spec_message(&self) -> Seq<char> {
        match self {
            BotError::Config(reason) => "Configuration error: "@ + reason@,
            BotError::Telegram(cause) => "Telegram API error: "@ + cause@,
            BotError::Internal(reason) => "Internal error: "@ + reason@,
        }
    }

    /// Renders the error for logging; no part of the cause is lost.
    pub fn message(&self) -> (msg: String)
        ensures
            msg@ == self.spec_message(),
    {
        match self {
            BotError::Config(reason) => String::from_str("Configuration error: ").concat(
                reason.as_str(),
            ),
            BotError::Telegram(cause) => String::from_str("Telegram API error: ").concat(
                cause.as_str(),
            ),
            BotError::Internal(reason) => String::from_str("Internal error: ").concat(
                reason.as_str(),
            ),
        }
    }
}

/// The exit code of a finished run: 0 on graceful shutdown, otherwise the
/// code selected by the error that ended it.
pub open spec fn spec_outcome_exit_code(outcome: Result<(), BotError>) -> int {
    match outcome {
        Ok(_) => 0,
        Err(e) => e.spec_exit_code(),
    }
}

/// Maps the final outcome of a run to the process exit code.
pub fn outcome_exit_code(outcome: &Result<(), BotError>) -> (code: i32)
    ensures
        code == spec_outcome_exit_code(*outcome),
{
    match outcome {
        Ok(_) => 0,
        Err(e) => e.exit_code(),
    }
}

} // verus!
