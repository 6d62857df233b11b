use job_scheduler::error::{ErrorStatus, WorkerError};

#[test]
fn permanent_error() {
    let e = WorkerError::permanent("Invalid url");
    assert_eq!(e.status, ErrorStatus::Permanent);
    assert_eq!(e.message, "Invalid url");
    assert!(e.source.is_none());
    assert!(e.is_permanent());
}

#[test]
fn temporary_error() {
    let e = WorkerError::temporary("Connection error");
    assert_eq!(e.status, ErrorStatus::Temporary);
    assert_eq!(e.message, "Connection error");
    assert!(e.source.is_none());
    assert!(!e.is_permanent());
}

#[test]
fn set_source_keeps_status_and_message() {
    let e = WorkerError::permanent("bad").set_source(anyhow::Error::msg("cause"));
    assert!(e.is_permanent());
    assert_eq!(e.message, "bad");
    assert!(e.source.is_some());
}

#[test]
fn set_source_keeps_temporary() {
    let e = WorkerError::temporary("later").set_source(anyhow::Error::msg("cause"));
    assert!(!e.is_permanent());
    assert_eq!(e.message, "later");
    assert_eq!(e.source.unwrap().to_string(), "cause");
}
