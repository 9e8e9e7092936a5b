//! The asset loader's decisions: which files it takes, and what a load does
//! once its stream has been drained.
//!
//! Reading the stream and waiting for the background task are the host's
//! part. Between the two the loader decides, and that decision lives here.

use crate::error::StepError;
use vstd::prelude::*;

verus! {

/// bevy's `AsyncComputeTaskPool`, the process-wide pool of worker threads for
/// long computations, declared so that a handle to it can be carried through.
/// Nothing is claimed of what it holds.
#[verifier::external_type_specification]
#[verifier::external_body]
pub struct ExAsyncComputeTaskPool(bevy::tasks::AsyncComputeTaskPool);

/// bevy's `AsyncComputeTaskPool::try_get` reads a process-wide cell that the
/// host fills at start-up. Whether it finds a pool depends on what the host
/// has done so far, so nothing is claimed of the result.
pub assume_specification[ bevy::tasks::AsyncComputeTaskPool::try_get ]() -> (pool: Option<
    &'static bevy::tasks::AsyncComputeTaskPool,
>)
;

/// The extension tokens in the order in which the loader declares them.
pub const EXTENSIONS: [&'static str; 2] = ["step", "stp"];

/// Work that is ready to leave the calling thread: the file's bytes and the
/// pool that will run the parser and the tessellator on them.
#[derive(Debug)]
pub struct BackgroundJob {
    pub pool: &'static bevy::tasks::AsyncComputeTaskPool,
    pub bytes: Vec<u8>,
}

/// The loader of STEP files.
#[derive(Clone, Copy, Debug, Default)]
pub struct StepLoader;

impl StepLoader {
    /// The file extensions that are routed to this loader: the format's full
    /// name and its three-letter form.
    pub fn extensions(&self) -> (tokens: &[&str])
        ensures
            tokens@.len() == 2,
            tokens@[0]@ == "step"@,
            tokens@[1]@ == "stp"@,
    {
        EXTENSIONS.as_slice()
    }

    /// Decides what follows the read phase, for a given result of the pool
    /// lookup.
    ///
    /// A failed read ends the load with the stream's own error, whether or
    /// not a pool is there. After a complete read the load needs a pool:
    /// without one it ends with [`StepError::NoAsyncComputeTaskPool`], with
    /// one the bytes are handed to it unchanged.
    pub fn dispatch_on(
        &self,
        read: Result<Vec<u8>, std::io::Error>,
        pool: Option<&'static bevy::tasks::AsyncComputeTaskPool>,
    ) -> (next: Result<BackgroundJob, StepError>)
        ensures
            match (read, pool) {
                (Err(error), _) => next == Err::<BackgroundJob, StepError>(StepError::Io(error)),
                (Ok(_), None) => next == Err::<BackgroundJob, StepError>(
                    StepError::NoAsyncComputeTaskPool,
                ),
                (Ok(bytes), Some(found)) => next matches Ok(job) && job.pool == found && job.bytes@
                    == bytes@,
            },
    {
        match read {
            Err(error) => Err(StepError::Io(error)),
            Ok(bytes) => match pool {
                None => Err(StepError::NoAsyncComputeTaskPool),
                Some(found) => Ok(BackgroundJob { pool: found, bytes }),
            },
        }
    }

    /// Decides what follows the read phase. The pool is looked up only after
    /// a complete read, and only once.
    ///
    /// Whatever the lookup finds, a failed read ends the load with the
    /// stream's own error, and a complete read either ends it with
    /// [`StepError::NoAsyncComputeTaskPool`] or yields a job that holds
    /// exactly the bytes that were read.
    pub fn dispatch(&self, read: Result<Vec<u8>, std::io::Error>) -> (next: Result<
        BackgroundJob,
        StepError,
    >)
        ensures
            match read {
                Err(error) => next == Err::<BackgroundJob, StepError>(StepError::Io(error)),
                Ok(bytes) => next == Err::<BackgroundJob, StepError>(
                    StepError::NoAsyncComputeTaskPool,
                ) || (next matches Ok(job) && job.bytes@ == bytes@),
            },
    {
        match read {
            Err(error) => Err(StepError::Io(error)),
            Ok(bytes) => {
                let pool = bevy::tasks::AsyncComputeTaskPool::try_get();
                self.dispatch_on(Ok(bytes), pool)
            },
        }
    }
}

} // verus!
