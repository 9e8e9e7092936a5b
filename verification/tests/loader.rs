use bevy::tasks::{AsyncComputeTaskPool, TaskPool};
use std::io::{Error, ErrorKind};
use step_loader::error::StepError;
use step_loader::loader::{StepLoader, EXTENSIONS};

fn truncated() -> Error {
    Error::new(ErrorKind::UnexpectedEof, "stream ended early")
}

#[test]
fn loader_declares_step_and_stp() {
    let loader = StepLoader;
    let tokens = loader.extensions();
    assert_eq!(tokens.len(), 2);
    assert_eq!(tokens[0], "step");
    assert_eq!(tokens[1], "stp");
    assert_eq!(StepLoader::default().extensions(), EXTENSIONS);
}

#[test]
fn failed_read_is_reported_as_the_streams_own_error() {
    match StepLoader.dispatch_on(Err(truncated()), None) {
        Err(StepError::Io(error)) => {
            assert_eq!(error.kind(), ErrorKind::UnexpectedEof);
            assert_eq!(error.to_string(), "stream ended early");
        },
        other => panic!("expected the stream's error, got {:?}", other),
    }
}

#[test]
fn failed_read_wins_over_a_registered_pool() {
    let pool = AsyncComputeTaskPool::get_or_init(TaskPool::new);
    match StepLoader.dispatch_on(Err(Error::new(ErrorKind::ConnectionReset, "reset")), Some(pool)) {
        Err(StepError::Io(error)) => assert_eq!(error.kind(), ErrorKind::ConnectionReset),
        other => panic!("expected the stream's error, got {:?}", other),
    }
}

#[test]
fn missing_pool_is_its_own_kind_of_failure() {
    match StepLoader.dispatch_on(Ok(b"ISO-10303-21;".to_vec()), None) {
        Err(StepError::NoAsyncComputeTaskPool) => {},
        other => panic!("expected the missing pool to be reported, got {:?}", other),
    }
    match StepLoader.dispatch_on(Ok(Vec::new()), None) {
        Err(StepError::NoAsyncComputeTaskPool) => {},
        other => panic!("expected the missing pool to be reported, got {:?}", other),
    }
}

#[test]
fn complete_read_is_handed_to_the_pool_unchanged() {
    let pool = AsyncComputeTaskPool::get_or_init(TaskPool::new);
    let bytes = b"ISO-10303-21;\nHEADER;\nENDSEC;\nEND-ISO-10303-21;\n".to_vec();
    match StepLoader.dispatch_on(Ok(bytes.clone()), Some(pool)) {
        Ok(job) => {
            assert_eq!(job.bytes, bytes);
            assert!(std::ptr::eq(job.pool, pool));
        },
        Err(error) => panic!("expected a job, got {:?}", error),
    }
}

#[test]
fn io_error_converts_into_step_error() {
    match StepError::from(truncated()) {
        StepError::Io(error) => assert_eq!(error.kind(), ErrorKind::UnexpectedEof),
        other => panic!("expected the stream's error, got {:?}", other),
    }
    let converted: StepError = Error::new(ErrorKind::PermissionDenied, "denied").into();
    assert!(matches!(converted, StepError::Io(_)));
}

#[test]
fn each_failure_describes_itself() {
    assert_eq!(StepError::Io(truncated()).message(), "Failed to load STEP");
    assert_eq!(
        StepError::NoAsyncComputeTaskPool.message(),
        "AsyncComputeTaskPool must be initialized before loading a STEP model"
    );
}
