//! Laws of the supervisor's lifecycle, stated over the state model that the
//! contracts of `BackendManager` use.
use vstd::prelude::*;

use crate::error::BackendError;
use crate::manager::{ChildProcess, Supervision};
use crate::status::BackendStatus;

verus! {

/// One state-changing call on a supervisor: `start`, with what spawning gave
/// (or would have given), or `stop`, whose effect on the state does not
/// depend on how killing and waiting went. `status` changes nothing.
pub enum Event<H> {
    Start(Result<ChildProcess<H>, String>),
    Stop,
}

impl<H> Supervision<H> {
    /// The state after one call.
    pub open spec fn step(self, e: Event<H>) -> Supervision<H> {
        match e {
            Event::Start(spawned) => self.start_next(spawned),
            Event::Stop => self.stop_next(),
        }
    }
}

/// The state reached from `s` by the calls of `events`, in order.
pub open spec fn replay<H>(s: Supervision<H>, events: Seq<Event<H>>) -> Supervision<H>
    decreases events.len(),
{
    if events.len() == 0 {
        s
    } else {
        replay(s, events.drop_last()).step(events.last())
    }
}

/// The call at index `i` of `events`, made from `s`, is a `start` that
/// succeeded with child `c`.
pub open spec fn started_at<H>(
    s: Supervision<H>,
    events: Seq<Event<H>>,
    i: int,
    c: ChildProcess<H>,
) -> bool {
    &&& events[i] == Event::Start(Ok::<ChildProcess<H>, String>(c))
    &&& !replay(s, events.subrange(0, i)).running()
}

/// The call at index `j` of `events`, made from `s`, is a `stop` that found
/// a child and gave it up.
pub open spec fn stopped_at<H>(s: Supervision<H>, events: Seq<Event<H>>, j: int) -> bool {
    &&& events[j] is Stop
    &&& replay(s, events.subrange(0, j)).running()
}

/// Whatever the calls made on a new supervisor, a snapshot that says
/// `running` reports the child set by the latest successful `start`, and no
/// successful `stop` came after that `start`.
pub proof fn running_comes_from_last_start<H>(port: u16, events: Seq<Event<H>>)
    ensures
        replay(Supervision::<H>::initial(port), events).status().running ==> exists|
            i: int,
            c: ChildProcess<H>,
        |
            {
                &&& 0 <= i < events.len()
                &&& started_at(Supervision::<H>::initial(port), events, i, c)
                &&& replay(Supervision::<H>::initial(port), events).child == Some(c)
                &&& replay(Supervision::<H>::initial(port), events).status().pid == Some(c.pid)
                &&& forall|j: int|
                    i < j < events.len() ==> !stopped_at(
                        Supervision::<H>::initial(port),
                        events,
                        j,
                    )
            },
    decreases events.len(),
{
    let s0 = Supervision::<H>::initial(port);
    if events.len() > 0 {
        let n = events.len() - 1;
        let pre = events.drop_last();
        assert(events.subrange(0, n) =~= pre);
        let before = replay(s0, pre);
        let after = replay(s0, events);
        if after.running() {
            match events.last() {
                Event::Stop => {
                    assert(!before.stop_next().running());
                },
                Event::Start(spawned) => {
                    if before.running() {
                        running_comes_from_last_start(port, pre);
                        let (i, c) = choose|i: int, c: ChildProcess<H>|
                            {
                                &&& 0 <= i < pre.len()
                                &&& started_at(s0, pre, i, c)
                                &&& replay(s0, pre).child == Some(c)
                                &&& replay(s0, pre).status().pid == Some(c.pid)
                                &&& forall|j: int| i < j < pre.len() ==> !stopped_at(s0, pre, j)
                            };
                        assert(events.subrange(0, i) =~= pre.subrange(0, i));
                        assert forall|j: int| i < j < events.len() implies !stopped_at(
                            s0,
                            events,
                            j,
                        ) by {
                            if j < n {
                                assert(events.subrange(0, j) =~= pre.subrange(0, j));
                                assert(!stopped_at(s0, pre, j));
                            }
                        }
                        assert(started_at(s0, events, i, c));
                    } else {
                        let c = spawned->Ok_0;
                        assert(started_at(s0, events, n, c));
                    }
                },
            }
        }
    }
}

/// A second `start` while a child is tracked is refused with
/// `AlreadyRunning`, and the tracked child, with its pid, stays as it was,
/// whatever spawning would have given.
pub proof fn start_twice_keeps_first<H>(
    s: Supervision<H>,
    c: ChildProcess<H>,
    spawned: Result<ChildProcess<H>, String>,
)
    requires
        !s.running(),
    ensures
        ({
            let first = s.start_next(Ok(c));
            &&& s.start_reply(Ok(c)) == Ok::<BackendStatus, BackendError>(first.status())
            &&& first.start_reply(spawned) == Err::<BackendStatus, BackendError>(
                BackendError::AlreadyRunning,
            )
            &&& first.start_next(spawned) == first
            &&& first.start_next(spawned).status().pid == Some(c.pid)
        }),
{
}

/// `stop` on a supervisor with no child is refused with `NotRunning`, and
/// the supervisor stays idle.
pub proof fn stop_when_idle_refused<H>(s: Supervision<H>, waited: Result<(), String>)
    requires
        !s.running(),
    ensures
        s.stop_reply(waited) == Err::<(), BackendError>(BackendError::NotRunning),
        s.stop_next() == s,
        !s.stop_next().running(),
{
}

/// After a successful `stop` the snapshot reports no child and no pid, and
/// the port is kept; so it does after a `stop` whose wait failed.
pub proof fn stopped_reports_idle<H>(s: Supervision<H>, waited: Result<(), String>)
    requires
        s.running(),
    ensures
        s.stop_reply(waited) is Ok <==> waited is Ok,
        s.stop_next().status() == BackendStatus::idle(s.port),
{
}

/// For any port: `start` (succeeding), `status`, `stop`, `status` brings a
/// new supervisor back to the snapshot it began with.
pub proof fn start_stop_round_trip<H>(port: u16, c: ChildProcess<H>)
    ensures
        ({
            let s0 = Supervision::<H>::initial(port);
            let s1 = s0.start_next(Ok(c));
            let s2 = s1.stop_next();
            &&& s0.status() == BackendStatus::idle(port)
            &&& s0.start_reply(Ok(c)) == Ok::<BackendStatus, BackendError>(s1.status())
            &&& s1.status() == BackendStatus { running: true, pid: Some(c.pid), port }
            &&& s1.stop_reply(Ok(())) == Ok::<(), BackendError>(())
            &&& s2.status() == s0.status()
            &&& s2 == s0
        }),
{
}

/// A `start` whose spawning failed leaves the supervisor as it was; a later
/// `start` whose spawning succeeds then tracks the new child.
pub proof fn failed_start_leaves_idle<H>(s: Supervision<H>, m: String, c: ChildProcess<H>)
    requires
        !s.running(),
    ensures
        s.start_reply(Err(m)) == Err::<BackendStatus, BackendError>(
            BackendError::SpawnFailure(m),
        ),
        s.start_next(Err(m)) == s,
        s.start_next(Err(m)).start_next(Ok(c)).child == Some(c),
        s.start_next(Err(m)).start_reply(Ok(c)) is Ok,
{
}

} // verus!
