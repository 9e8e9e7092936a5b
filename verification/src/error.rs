//! The ways in which a load ends without a mesh.

use vstd::prelude::*;
use vstd::std_specs::convert::FromSpecImpl;

verus! {

/// The standard library's `std::io::Error`, declared so that a value of it
/// can be carried through. Nothing is claimed of what it holds: the library
/// never looks inside one.
#[verifier::external_type_specification]
#[verifier::external_body]
pub struct ExIoError(std::io::Error);

/// Why a load failed. Both kinds end the load: nothing is retried and no
/// partial mesh is handed out.
#[derive(Debug)]
pub enum StepError {
    /// The stream could not be read to its end. The failure of the stream is
    /// kept as it was reported.
    Io(std::io::Error),
    /// No pool for background computation was registered when the load needed
    /// one. This is a defect of the host's setup, not of the file.
    NoAsyncComputeTaskPool,
}

impl StepError {
    /// A one-line description of the failure, fit for a log.
    pub fn message(&self) -> (text: &'static str)
        ensures
            self is Io ==> text@ == "Failed to load STEP"@,
            self is NoAsyncComputeTaskPool ==> text@
                == "AsyncComputeTaskPool must be initialized before loading a STEP model"@,
    {
        match self {
            StepError::Io(_) => "Failed to load STEP",
            StepError::NoAsyncComputeTaskPool => {
                "AsyncComputeTaskPool must be initialized before loading a STEP model"
            },
        }
    }
}

impl From<std::io::Error> for StepError {
    fn from(error: std::io::Error) -> (wrapped: StepError) {
        StepError::Io(error)
    }
}

impl FromSpecImpl<std::io::Error> for StepError {
    open spec fn obeys_from_spec() -> bool {
        true
    }

    open spec fn from_spec(error: std::io::Error) -> StepError {
        StepError::Io(error)
    }
}

} // verus!
