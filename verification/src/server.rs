//! Lifecycle of the server controller.
//!
//! A controller owns one bound socket and at most one active run. A run is a
//! reactor thread that polls the socket and a pool of workers that handle the
//! datagrams it reads. The controller's lifecycle is the state machine
//! `Idle -> Starting -> Running -> Stopping -> Idle`: `handle` enters
//! `Starting` and the outcome of spawning the reactor decides between
//! `Running` and `Idle`; `stop` enters `Stopping` and joining the reactor
//! thread returns the controller to `Idle`.
//!
//! The controller here is the decision half of that lifecycle: it says, for
//! each operation, what the next state is and what the surrounding program
//! must do (spawn a reactor, signal a shutdown, join a thread). The sockets,
//! threads and channels themselves live outside the library.

use vstd::prelude::*;

use crate::addr::PeerAddr;

verus! {

/// Number of worker threads a controller uses when none was configured.
pub const DEFAULT_WORKER_NUM: usize = 4;

/// Errors surfaced by the lifecycle operations.
#[derive(Debug, PartialEq, Eq, Structural)]
pub enum CoAPServerError {
    /// Address resolution, bind, or socket duplication failed.
    NetworkError,
    /// The reactor thread went away before confirming that the socket is
    /// registered for readability.
    EventLoopError,
    /// A start was attempted while a run is already active.
    AnotherHandlerIsRunning,
}

/// The phases of one run of the server.
#[derive(Debug, PartialEq, Eq, Structural, Clone, Copy)]
pub enum RunState {
    /// No run is active; the controller only holds the bound socket.
    Idle,
    /// A start was accepted; the reactor thread is being spawned and has not
    /// yet confirmed that the socket is registered.
    Starting,
    /// The reactor confirmed registration; datagrams are being polled.
    Running,
    /// A shutdown was signalled; the reactor thread has not yet been joined.
    Stopping,
}

/// How a start attempt ended, as observed by the caller of `handle`.
#[derive(Debug, PartialEq, Eq, Structural, Clone, Copy)]
pub enum StartOutcome {
    /// The controller's socket could not be duplicated for the reactor.
    CloneFailed,
    /// The reactor thread exited (or panicked) before confirming
    /// registration: the readiness signal will never arrive.
    ThreadGone,
    /// The reactor registered the socket for readability and confirmed it.
    Registered,
}

/// The server controller: the bound socket's lifecycle state and the worker
/// count configured for the next run.
pub struct CoAPServer {
    /// Phase of the current run.
    pub state: RunState,
    /// Number of worker threads the next run's pool is created with.
    pub worker_num: usize,
}

/// What `handle` decides: either the run may begin, with the pool size to
/// use, or the start is refused.
pub open spec fn spec_handle(s: CoAPServer) -> (CoAPServer, Result<usize, CoAPServerError>) {
    if s.state is Idle {
        (CoAPServer { state: RunState::Starting, ..s }, Ok(s.worker_num))
    } else {
        (s, Err(CoAPServerError::AnotherHandlerIsRunning))
    }
}

/// What `handle_outcome` decides for each way a start attempt can end.
pub open spec fn spec_handle_outcome(s: CoAPServer, outcome: StartOutcome) -> (CoAPServer, Result<
    (),
    CoAPServerError,
>) {
    match outcome {
        StartOutcome::CloneFailed => (
            CoAPServer { state: RunState::Idle, ..s },
            Err(CoAPServerError::NetworkError),
        ),
        StartOutcome::ThreadGone => (
            CoAPServer { state: RunState::Idle, ..s },
            Err(CoAPServerError::EventLoopError),
        ),
        StartOutcome::Registered => (CoAPServer { state: RunState::Running, ..s }, Ok(())),
    }
}

/// What `stop` decides: whether a shutdown must be signalled and the reactor
/// thread joined.
pub open spec fn spec_stop(s: CoAPServer) -> (CoAPServer, bool) {
    if s.state is Running {
        (CoAPServer { state: RunState::Stopping, ..s }, true)
    } else {
        (s, false)
    }
}

/// What `stop_joined` decides: once the reactor thread is joined the
/// controller is idle again.
pub open spec fn spec_stop_joined(s: CoAPServer) -> CoAPServer {
    CoAPServer { state: RunState::Idle, ..s }
}

impl CoAPServer {
    /// A fresh controller: no run is active and the default worker count is
    /// configured. Binding the socket happens outside the library; a
    /// controller exists only for a socket that was bound.
    pub fn new() -> (s: CoAPServer)
        ensures
            s.state is Idle,
            s.worker_num == DEFAULT_WORKER_NUM,
    {
        CoAPServer { state: RunState::Idle, worker_num: DEFAULT_WORKER_NUM }
    }

    /// Sets the number of worker threads used by the next run. It has no
    /// effect on a run that is already active: the pool size is read once,
    /// when a start is accepted.
    pub fn set_worker_num(&mut self, worker_num: usize)
        ensures
            final(self).worker_num == worker_num,
            final(self).state == old(self).state,
    {
        self.worker_num = worker_num;
    }

    /// Begins a start attempt. If a run is already active the attempt is
    /// refused with `AnotherHandlerIsRunning` and nothing changes; otherwise
    /// the controller enters `Starting` and the caller must spawn the reactor
    /// with a pool of the returned size, then report how the attempt ended
    /// through [`Self::handle_outcome`].
    pub fn handle(&mut self) -> (r: Result<usize, CoAPServerError>)
        ensures
            (*final(self), r) == spec_handle(*old(self)),
    {
        match self.state {
            RunState::Idle => {
                self.state = RunState::Starting;
                Ok(self.worker_num)
            },
            _ => Err(CoAPServerError::AnotherHandlerIsRunning),
        }
    }

    /// Completes a start attempt. The attempt succeeded exactly when the
    /// reactor confirmed that the socket is registered for readability: only
    /// then is the controller `Running`. On any failure the controller is
    /// idle again, with the error that names the failure.
    pub fn handle_outcome(&mut self, outcome: StartOutcome) -> (r: Result<(), CoAPServerError>)
        requires
            old(self).state is Starting,
        ensures
            (*final(self), r) == spec_handle_outcome(*old(self), outcome),
    {
        match outcome {
            StartOutcome::CloneFailed => {
                self.state = RunState::Idle;
                Err(CoAPServerError::NetworkError)
            },
            StartOutcome::ThreadGone => {
                self.state = RunState::Idle;
                Err(CoAPServerError::EventLoopError)
            },
            StartOutcome::Registered => {
                self.state = RunState::Running;
                Ok(())
            },
        }
    }

    /// Stops the current run, if one is active. The result says whether the
    /// caller must signal a shutdown to the reactor and join its thread;
    /// once joined, the caller reports back through [`Self::stop_joined`].
    /// On a controller with no active run this is a no-op.
    pub fn stop(&mut self) -> (signal: bool)
        ensures
            (*final(self), signal) == spec_stop(*old(self)),
    {
        match self.state {
            RunState::Running => {
                self.state = RunState::Stopping;
                true
            },
            _ => false,
        }
    }

    /// Completes a stop: the reactor thread was joined, so the run is over
    /// and the controller is idle again.
    pub fn stop_joined(&mut self)
        requires
            old(self).state is Stopping,
        ensures
            *final(self) == spec_stop_joined(*old(self)),
    {
        self.state = RunState::Idle;
    }
}

/// Law: stop is idempotent. On a controller with no active run — one never
/// started, or one whose stop has completed — stop changes nothing and asks
/// for no signal.
pub proof fn lemma_stop_idempotent(s: CoAPServer)
    requires
        s.state is Idle,
    ensures
        spec_stop(s) == (s, false),
{
}

/// Law: a completed stop leaves nothing more to stop. Stopping an active run
/// and joining its reactor thread brings the controller to a state in which
/// a further stop is a no-op.
pub proof fn lemma_stop_after_stop(s: CoAPServer)
    requires
        s.state is Running,
    ensures
        ({
            let s2 = spec_stop_joined(spec_stop(s).0);
            spec_stop(s2) == (s2, false)
        }),
{
}

/// Law: starts exclude each other. From an idle controller a start is
/// accepted and, once the reactor confirms registration, the run is active;
/// a second start without an intervening stop then fails with
/// `AnotherHandlerIsRunning` and leaves the controller — and with it the
/// first run — exactly as it was.
pub proof fn lemma_start_exclusion(s: CoAPServer)
    requires
        s.state is Idle,
    ensures
        ({
            let (s1, r1) = spec_handle(s);
            let (s2, r2) = spec_handle_outcome(s1, StartOutcome::Registered);
            let (s3, r3) = spec_handle(s2);
            &&& r1 == Ok::<usize, CoAPServerError>(s.worker_num)
            &&& r2 == Ok::<(), CoAPServerError>(())
            &&& r3 == Err::<usize, CoAPServerError>(CoAPServerError::AnotherHandlerIsRunning)
            &&& s3 == s2
        }),
{
}

/// Law: a start that is not idle is refused without side effects, whether
/// the run is still starting, active, or being stopped.
pub proof fn lemma_start_refused_while_active(s: CoAPServer)
    requires
        !(s.state is Idle),
    ensures
        spec_handle(s) == (s, Err::<usize, CoAPServerError>(
            CoAPServerError::AnotherHandlerIsRunning,
        )),
{
}

/// Law: a start succeeds exactly on the readiness confirmation. The
/// controller reports success — and is running — if and only if the reactor
/// confirmed that the socket is registered for readability; so when a start
/// returns successfully, the socket is already being polled.
pub proof fn lemma_start_ok_iff_registered(s: CoAPServer, outcome: StartOutcome)
    requires
        s.state is Starting,
    ensures
        spec_handle_outcome(s, outcome).1 is Ok <==> outcome is Registered,
        spec_handle_outcome(s, outcome).0.state is Running <==> outcome is Registered,
{
}

/// Law: teardown is clean. Stopping an active run demands the shutdown
/// signal and the join of the reactor thread; only the completed join makes
/// the controller idle, and from that state a new start is accepted again.
pub proof fn lemma_clean_teardown(s: CoAPServer)
    requires
        s.state is Running,
    ensures
        ({
            let (s1, signal) = spec_stop(s);
            &&& signal
            &&& s1.state is Stopping
            &&& spec_stop_joined(s1).state is Idle
            &&& spec_handle(spec_stop_joined(s1)).1 is Ok
        }),
{
}

/// Picks the address a controller binds to: the first resolved candidate.
/// Resolution that yields no candidate is a network error.
pub fn bind_target(candidates: Vec<PeerAddr>) -> (r: Result<PeerAddr, CoAPServerError>)
    ensures
        candidates@.len() > 0 ==> r == Ok::<PeerAddr, CoAPServerError>(candidates@[0]),
        candidates@.len() == 0 ==> r == Err::<PeerAddr, CoAPServerError>(
            CoAPServerError::NetworkError,
        ),
{
    let mut candidates = candidates;
    if candidates.len() > 0 {
        Ok(candidates.remove(0))
    } else {
        Err(CoAPServerError::NetworkError)
    }
}

} // verus!
