//! The ways an operation of the supervisor can fail.
use vstd::prelude::*;

verus! {

/// A failed operation. The supervisor's state is unchanged by it, but for
/// `WaitFailure`, which comes after the child was given up.
#[derive(Debug, PartialEq, Eq)]
pub enum BackendError {
    /// `start` while a child is tracked.
    AlreadyRunning,
    /// `stop` while no child is tracked.
    NotRunning,
    /// The system refused to create the child; holds its error text.
    SpawnFailure(String),
    /// Waiting for the killed child to exit failed; holds the error text.
    /// The child is no longer tracked all the same.
    WaitFailure(String),
}

/// The text by which a failure is reported to the caller.
pub open spec fn error_text(e: BackendError) -> Seq<char> {
    match e {
        BackendError::AlreadyRunning => "Backend is already running"@,
        BackendError::NotRunning => "Backend is not running"@,
        BackendError::SpawnFailure(m) => "Failed to start backend: "@ + m@,
        BackendError::WaitFailure(m) => "Failed to stop backend: "@ + m@,
    }
}

impl BackendError {
    /// The text by which this failure is reported to the caller.
    pub fn message(&self) -> (r: String)
        ensures
            r@ == error_text(*self),
    {
        match self {
            BackendError::AlreadyRunning => String::from_str("Backend is already running"),
            BackendError::NotRunning => String::from_str("Backend is not running"),
            BackendError::SpawnFailure(m) => String::from_str("Failed to start backend: ").concat(
                m.as_str(),
            ),
            BackendError::WaitFailure(m) => String::from_str("Failed to stop backend: ").concat(
                m.as_str(),
            ),
        }
    }
}

} // verus!
