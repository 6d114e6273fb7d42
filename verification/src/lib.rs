//! Batching client for sending log lines to AWS CloudWatch Logs.
//!
//! The verified core of the library: the log levels, the error type and its
//! rendering, the batching state machine that decides when a batch of log
//! events is sent and with which sequence token, the construction of the
//! requests and the interpretation of the replies, and the decisions of the
//! once-only setup.

pub mod levels;
pub mod error;
pub mod region;
pub mod prelude;
pub mod sync;
pub mod laws;

pub use crate::levels::LogLevel;
pub use crate::prelude::{LoggerError, LoggerHandle};
