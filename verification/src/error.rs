use vstd::prelude::*;

use tokio::sync::mpsc::error::SendError;

use crate::levels::LogLevel;

verus! {

/// `tokio::sync::mpsc::error::SendError`, the error of a send on a closed
/// channel; it holds the value that was not delivered.
#[verifier::external_type_specification]
#[verifier::external_body]
#[verifier::reject_recursive_types(T)]
pub struct ExSendError<T>(SendError<T>);

/// Calls tokio's `Debug` rendering of a `SendError`, which does not show the
/// undelivered value (`f.debug_struct("SendError").finish_non_exhaustive()`):
/// it is `SendError { .. }` whatever the value.
#[verifier::external_body]
fn send_error_debug<T>(e: &SendError<T>) -> (text: String)
    ensures
        text@ == "SendError { .. }"@,
{
    format!("{:?}", e)
}

/// Errors reported by the logger.
pub enum LoggerError {
    InvalidRegion,
    InvalidLogGroup,
    InvalidLogStream,
    InvalidLogEvent,
    InvalidLogEventBatch,
    /// The `DescribeLogStreams` call failed; holds the debug rendering of the
    /// service error.
    DescribeLogStreamError(String),
    /// The background process no longer receives; holds the message that
    /// could not be delivered.
    SendError(SendError<LogLevel>),
    Poisoned,
}

/// The text that `format_logger_error` renders for `l`.
pub open spec fn logger_error_text(l: LoggerError) -> Seq<char> {
    match l {
        LoggerError::InvalidRegion => "Invalid Region"@,
        LoggerError::InvalidLogGroup => "Invalid Log Group"@,
        LoggerError::InvalidLogStream => "Invalid Log Stream"@,
        LoggerError::InvalidLogEvent => "Invalid Log Event"@,
        LoggerError::InvalidLogEventBatch => "Invalid Log Event Batch"@,
        LoggerError::DescribeLogStreamError(e) => "DescribeLogStreamError: "@ + e@,
        LoggerError::SendError(_) => "SendError: "@ + "SendError { .. }"@,
        LoggerError::Poisoned => "Poisoned"@,
    }
}

/// Renders an error as the human-readable text used for both its display and
/// its debug form.
pub fn format_logger_error(l: &LoggerError) -> (text: String)
    ensures
        text@ == logger_error_text(*l),
{
    match l {
        LoggerError::InvalidRegion => String::from_str("Invalid Region"),
        LoggerError::InvalidLogGroup => String::from_str("Invalid Log Group"),
        LoggerError::InvalidLogStream => String::from_str("Invalid Log Stream"),
        LoggerError::InvalidLogEvent => String::from_str("Invalid Log Event"),
        LoggerError::InvalidLogEventBatch => String::from_str("Invalid Log Event Batch"),
        LoggerError::DescribeLogStreamError(e) => {
            String::from_str("DescribeLogStreamError: ").concat(e.as_str())
        },
        LoggerError::SendError(e) => String::from_str("SendError: ").concat(send_error_debug(e).as_str()),
        LoggerError::Poisoned => String::from_str("Poisoned"),
    }
}

impl LoggerError {
    /// The rendered text of this error (what `Display` and `Debug` print).
    pub fn to_text(&self) -> (text: String)
        ensures
            text@ == logger_error_text(*self),
    {
        format_logger_error(self)
    }
}

} // verus!
