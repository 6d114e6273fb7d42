use cloudwatch_logging::error::format_logger_error;
use cloudwatch_logging::prelude::{panic_message, prepend_to_string};
use cloudwatch_logging::{LogLevel, LoggerError};
use tokio::sync::mpsc::error::SendError;

#[test]
fn error_texts() {
    assert_eq!(format_logger_error(&LoggerError::InvalidRegion), "Invalid Region");
    assert_eq!(format_logger_error(&LoggerError::InvalidLogGroup), "Invalid Log Group");
    assert_eq!(format_logger_error(&LoggerError::InvalidLogStream), "Invalid Log Stream");
    assert_eq!(format_logger_error(&LoggerError::InvalidLogEvent), "Invalid Log Event");
    assert_eq!(format_logger_error(&LoggerError::InvalidLogEventBatch), "Invalid Log Event Batch");
    assert_eq!(
        format_logger_error(&LoggerError::DescribeLogStreamError("Service(x)".to_string())),
        "DescribeLogStreamError: Service(x)"
    );
    assert_eq!(
        format_logger_error(&LoggerError::SendError(SendError(LogLevel::Info("m".to_string())))),
        "SendError: SendError { .. }"
    );
    assert_eq!(format_logger_error(&LoggerError::Poisoned), "Poisoned");
    assert_eq!(LoggerError::Poisoned.to_text(), "Poisoned");
}

#[test]
fn prepend() {
    assert_eq!(prepend_to_string("INFO: ", "hello".to_string()), "INFO: hello");
    assert_eq!(prepend_to_string("", "x".to_string()), "x");
    assert_eq!(prepend_to_string("ERROR: ", String::new()), "ERROR: ");
}

#[test]
fn panic_messages() {
    assert_eq!(
        panic_message(Some("test"), "src/main.rs:3:5"),
        "PANIC at 'src/main.rs:3:5': test"
    );
    assert_eq!(
        panic_message(None, "a.rs:1:1"),
        "PANIC at 'a.rs:1:1': Panic with unknown payload"
    );
}

#[test]
fn debug_lines() {
    assert_eq!(
        LogLevel::Info("hi".to_string()).debug(42),
        Some("\x1b[90m[42]\x1b[0m \x1b[33mINFO:\x1b[0m hi".to_string())
    );
    assert_eq!(
        LogLevel::Error("bad".to_string()).debug(-7),
        Some("\x1b[90m[-7]\x1b[0m \x1b[31mERROR:\x1b[0m bad".to_string())
    );
    assert_eq!(
        LogLevel::Panic("p".to_string()).debug(0),
        Some("\x1b[90m[0]\x1b[0m \x1b[31mPANIC:\x1b[0m p".to_string())
    );
    assert_eq!(LogLevel::Flush.debug(5), None);
}
