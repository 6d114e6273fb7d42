use cloudwatch_logging::sync::{InitDecision, OnceSlot};
use cloudwatch_logging::LoggerError;

#[test]
fn naive_test() {
    // a first caller finds nothing set up, takes over the setup, and publishes the value
    let mut slot: OnceSlot<u8> = OnceSlot::new();
    assert!(matches!(slot.value(), Err(LoggerError::Poisoned)));
    assert!(matches!(slot.enter(), InitDecision::RunSetup));
    assert!(slot.finish(Ok(7)).is_ok());
    assert_eq!(slot.value().ok(), Some(&7));
    // a later caller reads it directly
    assert!(matches!(slot.enter(), InitDecision::ReadValue));
    assert_eq!(slot.value().ok(), Some(&7));
}

#[test]
fn test_lazy_logger_handle() {
    // a second caller, arriving while the first sets up, waits; both then read one value
    let mut slot: OnceSlot<u8> = OnceSlot::new();
    assert!(matches!(slot.enter(), InitDecision::RunSetup));
    assert!(matches!(slot.enter(), InitDecision::WaitForReady));
    assert!(matches!(slot.enter(), InitDecision::WaitForReady));
    assert!(slot.finish(Ok(1)).is_ok());
    assert!(matches!(slot.enter(), InitDecision::ReadValue));
    assert_eq!(slot.value().ok(), Some(&1));
    // a late report changes nothing
    assert!(matches!(slot.finish(Ok(2)), Err(LoggerError::Poisoned)));
    assert_eq!(slot.value().ok(), Some(&1));
}

#[test]
fn failed_setup_lets_a_later_caller_retry() {
    let mut slot: OnceSlot<u8> = OnceSlot::new();
    assert!(matches!(slot.enter(), InitDecision::RunSetup));
    assert!(matches!(slot.enter(), InitDecision::WaitForReady));
    assert!(matches!(slot.finish(Err(LoggerError::InvalidRegion)), Err(LoggerError::InvalidRegion)));
    assert!(matches!(slot.value(), Err(LoggerError::Poisoned)));
    // the waiting caller looks again and runs the setup itself
    assert!(matches!(slot.enter(), InitDecision::RunSetup));
    assert!(slot.finish(Ok(3)).is_ok());
    assert_eq!(slot.value().ok(), Some(&3));
}
