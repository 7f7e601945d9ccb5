//! The supervisor: at most one tracked child and a fixed port.
use vstd::prelude::*;

use crate::error::BackendError;
use crate::launch::{launch_plan, HostOs, LaunchPlan};
use crate::status::BackendStatus;

verus! {

/// A spawned child: the caller's handle on it and the process identifier
/// that the system gave it when it was spawned.
pub struct ChildProcess<H> {
    pub handle: H,
    pub pid: u32,
}

/// What a supervisor holds, as a value: the tracked child, if any, and the
/// configured port.
pub struct Supervision<H> {
    pub child: Option<ChildProcess<H>>,
    pub port: u16,
}

impl<H> Supervision<H> {
    /// A supervisor as it is created: no child, the given port.
    pub open spec fn initial(port: u16) -> Supervision<H> {
        Supervision { child: None, port }
    }

    /// A child is tracked.
    pub open spec fn running(self) -> bool {
        self.child is Some
    }

    /// The snapshot derived from this state.
    pub open spec fn status(self) -> BackendStatus {
        BackendStatus {
            running: self.child is Some,
            pid: match self.child {
                Some(c) => Some(c.pid),
                None => None,
            },
            port: self.port,
        }
    }

    /// The state after `start`, given what spawning gave (spawning is not
    /// attempted while a child is tracked).
    pub open spec fn start_next(self, spawned: Result<ChildProcess<H>, String>) -> Supervision<H> {
        if self.running() {
            self
        } else {
            match spawned {
                Ok(c) => Supervision { child: Some(c), port: self.port },
                Err(_) => self,
            }
        }
    }

    /// What `start` returns, given what spawning gave.
    pub open spec fn start_reply(self, spawned: Result<ChildProcess<H>, String>) -> Result<
        BackendStatus,
        BackendError,
    > {
        if self.running() {
            Err(BackendError::AlreadyRunning)
        } else {
            match spawned {
                Ok(_) => Ok(self.start_next(spawned).status()),
                Err(m) => Err(BackendError::SpawnFailure(m)),
            }
        }
    }

    /// The state after `stop`: the child, if any, is no longer tracked.
    pub open spec fn stop_next(self) -> Supervision<H> {
        if self.running() {
            Supervision { child: None, port: self.port }
        } else {
            self
        }
    }

    /// What `stop` returns, given what waiting for the killed child gave
    /// (nothing is killed or waited for while no child is tracked). A failed
    /// kill does not count: the wait that follows it decides.
    pub open spec fn stop_reply(self, waited: Result<(), String>) -> Result<(), BackendError> {
        if self.running() {
            match waited {
                Ok(()) => Ok(()),
                Err(m) => Err(BackendError::WaitFailure(m)),
            }
        } else {
            Err(BackendError::NotRunning)
        }
    }
}

/// Owns at most one child process, of handle type `H`, and the port that
/// every child it starts is given.
///
/// What it reports is its own belief: a child that exits by itself stays
/// tracked until `stop`. Dropping a supervisor drops the handle and does not
/// terminate the child.
pub struct BackendManager<H> {
    process: Option<ChildProcess<H>>,
    port: u16,
}

impl<H> View for BackendManager<H> {
    type V = Supervision<H>;

    closed spec fn view(&self) -> Supervision<H> {
        Supervision { child: self.process, port: self.port }
    }
}

impl<H> BackendManager<H> {
    /// A supervisor with no child, whose children listen on `port`.
    pub fn new(port: u16) -> (r: Self)
        ensures
            r@ == Supervision::<H>::initial(port),
    {
        BackendManager { process: None, port }
    }

    /// Starts a child from `backend_path` on `host`, unless one is tracked.
    ///
    /// `spawn` is handed the launch plan and either creates the process or
    /// reports the system's error text. On success the child is tracked and
    /// the fresh snapshot returned; on any failure nothing changes.
    pub fn start<F>(&mut self, backend_path: &str, host: HostOs, spawn: F) -> (r: Result<
        BackendStatus,
        BackendError,
    >) where F: FnOnce(LaunchPlan) -> Result<ChildProcess<H>, String>
        requires
            old(self)@.running() || forall|p: LaunchPlan| spawn.requires((p,)),
        ensures
            old(self)@.running() ==> r == Err::<BackendStatus, BackendError>(
                BackendError::AlreadyRunning,
            ) && final(self)@ == old(self)@,
            !old(self)@.running() ==> exists|p: LaunchPlan, spawned: Result<ChildProcess<H>, String>|
                {
                    &&& p.describes(backend_path@, host, old(self)@.port)
                    &&& spawn.ensures((p,), spawned)
                    &&& r == old(self)@.start_reply(spawned)
                    &&& final(self)@ == old(self)@.start_next(spawned)
                },
    {
        if self.process.is_some() {
            return Err(BackendError::AlreadyRunning);
        }
        let plan = launch_plan(backend_path, host, self.port);
        let ghost p = plan;
        let spawned = spawn(plan);
        assert(p.describes(backend_path@, host, old(self)@.port) && spawn.ensures((p,), spawned));
        match spawned {
            Ok(child) => {
                self.process = Some(child);
                Ok(self.status())
            },
            Err(m) => Err(BackendError::SpawnFailure(m)),
        }
    }

    /// Stops the tracked child, if any.
    ///
    /// The child is removed from the state first, whatever follows. `kill`
    /// then asks the system to kill it at once and hands the child back with
    /// the outcome, which is ignored; `wait` then waits on that child until
    /// it has exited and been reaped, and a failure of the wait is returned.
    pub fn stop<K, W>(&mut self, kill: K, wait: W) -> (r: Result<(), BackendError>) where
        K: FnOnce(ChildProcess<H>) -> (ChildProcess<H>, Result<(), String>),
        W: FnOnce(ChildProcess<H>) -> Result<(), String>,
        requires
            !old(self)@.running() || ((forall|c: ChildProcess<H>| kill.requires((c,))) && (forall|
                c: ChildProcess<H>,
            | wait.requires((c,)))),
        ensures
            final(self)@ == old(self)@.stop_next(),
            !old(self)@.running() ==> r == Err::<(), BackendError>(BackendError::NotRunning),
            old(self)@.child matches Some(c) ==> exists|
                killed: ChildProcess<H>,
                kill_outcome: Result<(), String>,
                waited: Result<(), String>,
            |
                {
                    &&& kill.ensures((c,), (killed, kill_outcome))
                    &&& wait.ensures((killed,), waited)
                    &&& r == old(self)@.stop_reply(waited)
                },
    {
        match self.process.take() {
            Some(child) => {
                let ghost c = child;
                let (killed, kill_outcome) = kill(child);
                let ghost k = killed;
                let waited = wait(killed);
                let ghost w = waited;
                let r = match waited {
                    Ok(()) => Ok(()),
                    Err(m) => Err(BackendError::WaitFailure(m)),
                };
                assert(kill.ensures((c,), (k, kill_outcome)) && wait.ensures((k,), w) && r
                    == old(self)@.stop_reply(w));
                r
            },
            None => Err(BackendError::NotRunning),
        }
    }

    /// The snapshot of what the supervisor currently believes.
    pub fn status(&self) -> (r: BackendStatus)
        ensures
            r == self@.status(),
            r.consistent(),
    {
        BackendStatus {
            running: self.process.is_some(),
            pid: match &self.process {
                Some(c) => Some(c.pid),
                None => None,
            },
            port: self.port,
        }
    }
}

} // verus!
