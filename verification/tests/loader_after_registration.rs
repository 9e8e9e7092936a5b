use bevy::tasks::{block_on, AsyncComputeTaskPool, TaskPool};
use std::io::{Error, ErrorKind};
use step_loader::error::StepError;
use step_loader::loader::StepLoader;

#[test]
fn load_after_registration_hands_the_bytes_to_the_pool() {
    let pool = AsyncComputeTaskPool::get_or_init(TaskPool::new);
    let bytes = b"ISO-10303-21;\nEND-ISO-10303-21;\n".to_vec();
    let job = StepLoader.dispatch(Ok(bytes.clone())).expect("a pool is registered");
    assert_eq!(job.bytes, bytes);
    assert!(std::ptr::eq(job.pool, pool));
    let moved = job.bytes;
    let length = block_on(job.pool.spawn(async move { moved.len() }));
    assert_eq!(length, bytes.len());
}

#[test]
fn failed_read_after_registration_reports_the_stream() {
    AsyncComputeTaskPool::get_or_init(TaskPool::new);
    match StepLoader.dispatch(Err(Error::new(ErrorKind::BrokenPipe, "pipe closed"))) {
        Err(StepError::Io(error)) => assert_eq!(error.kind(), ErrorKind::BrokenPipe),
        other => panic!("expected the stream's error, got {:?}", other),
    }
}
