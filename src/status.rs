//! The snapshot that `status` hands out.
use vstd::prelude::*;

verus! {

/// What the supervisor believes at the moment of the query: whether a child
/// is tracked, its process identifier, and the configured port.
#[derive(Clone, Copy, Debug, PartialEq, Eq, Structural)]
pub struct BackendStatus {
    pub running: bool,
    pub pid: Option<u32>,
    pub port: u16,
}

impl BackendStatus {
    /// A snapshot is consistent when a pid is reported exactly while running.
    pub open spec fn consistent(self) -> bool {
        self.running <==> self.pid is Some
    }

    /// The snapshot of a supervisor that tracks no child.
    pub open spec fn idle(port: u16) -> BackendStatus {
        BackendStatus { running: false, pid: None, port }
    }
}

} // verus!
