use std::io::{Error, ErrorKind};
use step_loader::error::StepError;
use step_loader::loader::StepLoader;

// No test of this file registers a pool, so every lookup finds none.

#[test]
fn load_before_registration_reports_the_missing_pool() {
    match StepLoader.dispatch(Ok(b"ISO-10303-21;".to_vec())) {
        Err(StepError::NoAsyncComputeTaskPool) => {},
        other => panic!("expected the missing pool to be reported, got {:?}", other),
    }
}

#[test]
fn failed_read_before_registration_reports_the_stream() {
    match StepLoader.dispatch(Err(Error::new(ErrorKind::UnexpectedEof, "stream ended early"))) {
        Err(StepError::Io(error)) => {
            assert_eq!(error.kind(), ErrorKind::UnexpectedEof);
            assert_eq!(error.to_string(), "stream ended early");
        },
        other => panic!("expected the stream's error, got {:?}", other),
    }
}
