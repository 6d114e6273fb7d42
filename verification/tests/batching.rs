use std::time::Duration;

use cloudwatch_logging::prelude::{Event, LogEvent, PutLogEvents, Step};
use cloudwatch_logging::{LogLevel, LoggerError, LoggerHandle};

fn handle(batch_size: usize, token: Option<&str>) -> LoggerHandle {
    LoggerHandle::new(
        "test-group".to_string(),
        "test-stream".to_string(),
        batch_size,
        Duration::from_secs(1),
        token.map(|t| t.to_string()),
    )
}

fn info(text: &str, timestamp: i64) -> Event {
    Event::Received(LogLevel::Info(text.to_string()), timestamp)
}

fn messages(put: &PutLogEvents) -> Vec<String> {
    put.log_events.iter().map(|e: &LogEvent| e.message.clone()).collect()
}

fn sent(step: Step) -> PutLogEvents {
    step.put.expect("a batch should have been sent")
}

#[test]
fn run_logger() {
    let mut h = handle(1, None);
    let put = sent(h.handle_event(info("test", 10)));
    assert_eq!(messages(&put), vec!["INFO: test".to_string()]);
    assert_eq!(put.log_events[0].timestamp, 10);
    assert!(h.handle_event(Event::Received(LogLevel::Flush, 11)).put.is_none());
}

#[test]
fn test_logger_batching() {
    let mut h = handle(2, None);
    assert!(h.handle_event(info("test1", 1)).put.is_none());
    let put = sent(h.handle_event(info("test2", 2)));
    assert_eq!(messages(&put), vec!["INFO: test1".to_string(), "INFO: test2".to_string()]);
    assert_eq!(put.log_group_name, "test-group");
    assert_eq!(put.log_stream_name, "test-stream");
    assert!(h.handle_event(Event::Received(LogLevel::Flush, 3)).put.is_none());
    assert_eq!(h.pending_count(), 0);
}

#[test]
fn test_logger_batching_timeout() {
    let mut h = handle(2, None);
    assert!(h.handle_event(info("test1", 1)).put.is_none());
    let put = sent(h.handle_event(info("test2", 2)));
    assert_eq!(messages(&put), vec!["INFO: test1".to_string(), "INFO: test2".to_string()]);
    assert!(h.handle_event(Event::Received(LogLevel::Flush, 3)).put.is_none());
    assert!(h.handle_event(Event::TimedOut).put.is_none());
}

#[test]
fn test_not_enough_space() {
    let mut h = handle(2, None);
    assert!(h.handle_event(info("test1", 1)).put.is_none());
    let first = sent(h.handle_event(info("test2", 2)));
    assert!(h.handle_event(info("test3", 3)).put.is_none());
    let second = sent(h.handle_event(Event::Received(LogLevel::Flush, 4)));
    assert_eq!(messages(&first), vec!["INFO: test1".to_string(), "INFO: test2".to_string()]);
    assert_eq!(messages(&second), vec!["INFO: test3".to_string()]);
}

#[test]
fn spam_not_enough_space() {
    let mut h = handle(2, None);
    let mut delivered: Vec<String> = Vec::new();
    let mut calls = 0;
    for i in 0..(10 * 100) {
        let step = h.handle_event(info("test", i));
        if let Some(put) = step.put {
            assert!(put.log_events.len() <= 2 && !put.log_events.is_empty());
            delivered.extend(messages(&put));
            calls += 1;
            assert!(h.complete_put(Ok(Some(format!("token-{}", calls)))).is_ok());
        }
    }
    if let Some(put) = h.handle_event(Event::Received(LogLevel::Flush, 1000)).put {
        delivered.extend(messages(&put));
    }
    assert_eq!(delivered.len(), 10 * 100);
    assert!(delivered.iter().all(|m| m == "INFO: test"));
    assert_eq!(calls, 500);
}

#[test]
fn error_and_panic_are_sent_at_once() {
    let mut h = handle(10, None);
    assert!(h.handle_event(info("a", 1)).put.is_none());
    let put = sent(h.handle_event(Event::Received(LogLevel::Error("boom".to_string()), 2)));
    assert_eq!(messages(&put), vec!["INFO: a".to_string(), "ERROR: boom".to_string()]);
    let put = sent(h.handle_event(Event::Received(LogLevel::Panic("PANIC at 'x': y".to_string()), 3)));
    assert_eq!(messages(&put), vec!["PANIC at 'x': y".to_string()]);
    assert_eq!(put.log_events[0].timestamp, 3);
}

#[test]
fn timeout_sends_pending_lines() {
    let mut h = handle(10, None);
    assert!(h.handle_event(Event::TimedOut).put.is_none());
    assert!(h.handle_event(info("a", 1)).put.is_none());
    let put = sent(h.handle_event(Event::TimedOut));
    assert_eq!(messages(&put), vec!["INFO: a".to_string()]);
    assert_eq!(h.pending_count(), 0);
}

#[test]
fn closing_sends_the_rest_and_stops() {
    let mut h = handle(10, None);
    assert!(!h.handle_event(info("a", 1)).stop);
    let step = h.handle_event(Event::Closed);
    assert!(step.stop);
    assert_eq!(messages(&sent(step)), vec!["INFO: a".to_string()]);
    let step = h.handle_event(Event::Closed);
    assert!(step.stop);
    assert!(step.put.is_none());
}

#[test]
fn sequence_tokens_are_chained() {
    let mut h = handle(1, Some("tok0"));
    let put = sent(h.handle_event(info("a", 1)));
    assert_eq!(put.sequence_token, Some("tok0".to_string()));
    assert!(h.complete_put(Ok(Some("tok1".to_string()))).is_ok());
    let put = sent(h.handle_event(info("b", 2)));
    assert_eq!(put.sequence_token, Some("tok1".to_string()));
    // no reply in between: the token was spent
    let put = sent(h.handle_event(info("c", 3)));
    assert_eq!(put.sequence_token, None);
}

#[test]
fn failed_put_is_invalid_log_stream() {
    let mut h = handle(1, Some("tok0"));
    let _ = sent(h.handle_event(info("a", 1)));
    assert!(matches!(h.complete_put(Err(())), Err(LoggerError::InvalidLogStream)));
    let put = sent(h.handle_event(info("b", 2)));
    assert_eq!(put.sequence_token, None);
}

#[test]
fn send_to_cloudwatch_takes_the_token() {
    let mut h = handle(3, Some("tok0"));
    let batch = vec![LogEvent { message: "x".to_string(), timestamp: 7 }];
    let put = h.send_to_cloudwatch(batch);
    assert_eq!(put.sequence_token, Some("tok0".to_string()));
    assert_eq!(messages(&put), vec!["x".to_string()]);
    let put = h.send_to_cloudwatch(Vec::new());
    assert_eq!(put.sequence_token, None);
}

#[test]
fn handle_accessors() {
    let h = handle(3, None);
    assert_eq!(h.pending_count(), 0);
    assert_eq!(h.interval(), Duration::from_secs(1));
}
