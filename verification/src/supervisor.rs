//! The supervisor of the companion worker process.
//!
//! At most one worker is tracked at a time. The supervisor decides; the shell
//! spawns, drains the worker's output and signals it, and reports back. A
//! start that is under way is remembered, so that a second request made
//! before the process is up does not spawn a second worker.

use vstd::prelude::*;

verus! {

/// What the supervisor knows of the worker.
#[derive(Clone, Copy, Debug, PartialEq, Eq, Structural)]
pub enum WorkerState {
    /// No worker is tracked and none is being started.
    Stopped,
    /// The shell has been told to spawn a worker and has not reported yet.
    Starting,
    /// The worker with this process identifier is tracked.
    Running { pid: u32 },
}

/// The answer to a request that the worker be running.
#[derive(Clone, Copy, Debug, PartialEq, Eq, Structural)]
pub enum StartDecision {
    /// A worker is tracked; there is nothing to do.
    AlreadyRunning,
    /// A worker is being started on behalf of an earlier request.
    AlreadyStarting,
    /// Spawn the worker and report with `spawned` or `spawn_failed`.
    Spawn,
}

/// What becomes of a process the shell reports as spawned.
#[derive(Clone, Copy, Debug, PartialEq, Eq, Structural)]
pub enum SpawnVerdict {
    /// The process is now the tracked worker; begin draining its output.
    Track,
    /// No start was under way; the process is not tracked and is to be
    /// terminated.
    Discard,
}

/// The answer to a request that the worker be stopped.
#[derive(Clone, Copy, Debug, PartialEq, Eq, Structural)]
pub enum StopDecision {
    /// No worker was tracked.
    Nothing,
    /// The worker is no longer tracked; request its termination.
    Terminate { pid: u32 },
}

/// The kinds of event in a worker's output stream.
#[derive(Clone, Copy, Debug, PartialEq, Eq, Structural)]
pub enum WorkerEvent {
    /// A line of standard output.
    Stdout,
    /// A line of error output.
    Stderr,
    /// The process reported an error of its own launch or pipes.
    SpawnError,
    /// The process has terminated.
    Terminated,
    /// The stream has ended.
    Closed,
    /// Anything else.
    Other,
}

/// Why a request to the supervisor failed.
#[derive(Clone, Copy, Debug, PartialEq, Eq, Structural)]
pub enum SupervisorError {
    /// The worker could not be started.
    SpawnFailed,
    /// The worker could not be signalled to stop.
    StopFailed,
}

impl SupervisorError {
    /// The words in which the error is told to the user.
    pub open spec fn text(self) -> Seq<char> {
        match self {
            SupervisorError::SpawnFailed => "Failed to spawn sidecar"@,
            SupervisorError::StopFailed => "Failed to stop sidecar"@,
        }
    }

    /// The words in which the error is told to the user.
    pub fn message(self) -> (message: &'static str)
        ensures
            message@ == self.text(),
    {
        match self {
            SupervisorError::SpawnFailed => "Failed to spawn sidecar",
            SupervisorError::StopFailed => "Failed to stop sidecar",
        }
    }
}

/// The process identifier of the tracked worker.
pub open spec fn worker_of(state: WorkerState) -> Option<u32> {
    match state {
        WorkerState::Running { pid } => Some(pid),
        _ => None,
    }
}

/// A request that the worker be running.
pub open spec fn ensure_step(state: WorkerState) -> (WorkerState, StartDecision) {
    match state {
        WorkerState::Stopped => (WorkerState::Starting, StartDecision::Spawn),
        WorkerState::Starting => (state, StartDecision::AlreadyStarting),
        WorkerState::Running { .. } => (state, StartDecision::AlreadyRunning),
    }
}

/// The shell's report that a process was spawned.
pub open spec fn spawned_step(state: WorkerState, pid: u32) -> (WorkerState, SpawnVerdict) {
    match state {
        WorkerState::Starting => (WorkerState::Running { pid }, SpawnVerdict::Track),
        _ => (state, SpawnVerdict::Discard),
    }
}

/// The shell's report that no process could be spawned.
pub open spec fn spawn_failed_step(state: WorkerState) -> WorkerState {
    match state {
        WorkerState::Starting => WorkerState::Stopped,
        _ => state,
    }
}

/// Whether an event says that the process it comes from is gone.
pub open spec fn ends_worker(event: WorkerEvent) -> bool {
    event == WorkerEvent::Terminated || event == WorkerEvent::Closed
}

/// An event from the output stream of the process `pid`. The tracked worker
/// is let go only when the event says the process is gone and the process is
/// the one tracked.
pub open spec fn observe_step(state: WorkerState, pid: u32, event: WorkerEvent) -> WorkerState {
    if ends_worker(event) && worker_of(state) == Some(pid) {
        WorkerState::Stopped
    } else {
        state
    }
}

/// A request that the worker be stopped.
pub open spec fn stop_step(state: WorkerState) -> (WorkerState, StopDecision) {
    match state {
        WorkerState::Running { pid } => (WorkerState::Stopped, StopDecision::Terminate { pid }),
        _ => (state, StopDecision::Nothing),
    }
}

/// The tracker of the one companion worker.
#[derive(Debug)]
pub struct WorkerSupervisor {
    state: WorkerState,
}

impl View for WorkerSupervisor {
    type V = WorkerState;

    closed spec fn view(&self) -> WorkerState {
        self.state
    }
}

impl WorkerSupervisor {
    /// A supervisor that tracks nothing.
    pub fn new() -> (supervisor: Self)
        ensures
            supervisor@ == WorkerState::Stopped,
    {
        WorkerSupervisor { state: WorkerState::Stopped }
    }

    /// What the supervisor knows of the worker.
    pub fn state(&self) -> (state: WorkerState)
        ensures
            state == self@,
    {
        self.state
    }

    /// The process identifier of the tracked worker.
    pub fn tracked_pid(&self) -> (pid: Option<u32>)
        ensures
            pid == worker_of(self@),
    {
        match self.state {
            WorkerState::Running { pid } => Some(pid),
            _ => None,
        }
    }

    /// Whether a worker is tracked.
    pub fn is_running(&self) -> (running: bool)
        ensures
            running == worker_of(self@).is_some(),
    {
        self.tracked_pid().is_some()
    }

    /// Asks that the worker be running. Only the answer `Spawn` calls for
    /// work; the other two mean that the request is already met or on its way.
    pub fn ensure_running(&mut self) -> (decision: StartDecision)
        ensures
            (final(self)@, decision) == ensure_step(old(self)@),
    {
        match self.state {
            WorkerState::Stopped => {
                self.state = WorkerState::Starting;
                StartDecision::Spawn
            },
            WorkerState::Starting => StartDecision::AlreadyStarting,
            WorkerState::Running { .. } => StartDecision::AlreadyRunning,
        }
    }

    /// Takes the report that the process `pid` was spawned.
    pub fn spawned(&mut self, pid: u32) -> (verdict: SpawnVerdict)
        ensures
            (final(self)@, verdict) == spawned_step(old(self)@, pid),
    {
        match self.state {
            WorkerState::Starting => {
                self.state = WorkerState::Running { pid };
                SpawnVerdict::Track
            },
            _ => SpawnVerdict::Discard,
        }
    }

    /// Takes the report that no process could be spawned, and hands back the
    /// error for the caller that asked. No worker is tracked afterwards on
    /// account of that request; the caller may ask again.
    pub fn spawn_failed(&mut self) -> (error: SupervisorError)
        ensures
            final(self)@ == spawn_failed_step(old(self)@),
            error == SupervisorError::SpawnFailed,
    {
        match self.state {
            WorkerState::Starting => {
                self.state = WorkerState::Stopped;
            },
            _ => {},
        }
        SupervisorError::SpawnFailed
    }

    /// Takes an event from the output stream of the process `pid` and says
    /// whether the tracked worker was let go on account of it.
    pub fn observe(&mut self, pid: u32, event: WorkerEvent) -> (cleared: bool)
        ensures
            final(self)@ == observe_step(old(self)@, pid, event),
            cleared == (final(self)@ != old(self)@),
    {
        let gone = match event {
            WorkerEvent::Terminated => true,
            WorkerEvent::Closed => true,
            _ => false,
        };
        if gone {
            match self.state {
                WorkerState::Running { pid: current } => {
                    if current == pid {
                        self.state = WorkerState::Stopped;
                        return true;
                    }
                },
                _ => {},
            }
        }
        false
    }

    /// Lets go of the tracked worker, at once, and says which process is to
    /// be terminated. With no worker tracked nothing changes.
    pub fn stop(&mut self) -> (decision: StopDecision)
        ensures
            (final(self)@, decision) == stop_step(old(self)@),
    {
        match self.state {
            WorkerState::Running { pid } => {
                self.state = WorkerState::Stopped;
                StopDecision::Terminate { pid }
            },
            _ => StopDecision::Nothing,
        }
    }

    /// The result of a stop for the caller that asked, given whether the
    /// process could be signalled.
    pub fn stop_result(signalled: bool) -> (result: Result<(), SupervisorError>)
        ensures
            result == if signalled {
                Ok::<(), SupervisorError>(())
            } else {
                Err::<(), SupervisorError>(SupervisorError::StopFailed)
            },
    {
        if signalled {
            Ok(())
        } else {
            Err(SupervisorError::StopFailed)
        }
    }
}

/// Of two requests that the worker be running, the second never spawns:
/// neither when it comes before the shell has reported on the first, nor
/// when it comes after. The worker tracked after both is the one that the
/// first request brought up.
pub proof fn law_second_request_never_spawns(state: WorkerState, pid: u32)
    ensures
        ({
            let first = ensure_step(state);
            let second = ensure_step(first.0);
            let reported = spawned_step(second.0, pid);
            &&& second.1 != StartDecision::Spawn
            &&& second.0 == first.0
            &&& first.1 == StartDecision::Spawn ==> worker_of(reported.0) == Some(pid)
        }),
        ({
            let first = ensure_step(state);
            let reported = spawned_step(first.0, pid);
            let second = ensure_step(reported.0);
            &&& second.1 != StartDecision::Spawn
            &&& second.0 == reported.0
            &&& first.1 == StartDecision::Spawn ==> worker_of(second.0) == Some(pid)
        }),
{
}

/// A process reported as spawned never displaces a tracked worker.
pub proof fn law_tracked_worker_is_never_displaced(state: WorkerState, pid: u32)
    requires
        worker_of(state) is Some,
    ensures
        spawned_step(state, pid) == (state, SpawnVerdict::Discard),
{
}

/// An event from a process other than the tracked worker changes nothing.
pub proof fn law_foreign_event_changes_nothing(state: WorkerState, pid: u32, event: WorkerEvent)
    requires
        worker_of(state) != Some(pid),
    ensures
        observe_step(state, pid, event) == state,
{
}

/// The late word of a stopped worker does not cost its successor its place:
/// after a stop, a new start and the report of the new process, an event
/// from the stopped one leaves the new one tracked.
pub proof fn law_stale_termination_spares_successor(
    stopped_pid: u32,
    successor_pid: u32,
    event: WorkerEvent,
)
    requires
        stopped_pid != successor_pid,
    ensures
        ({
            let stopped = stop_step(WorkerState::Running { pid: stopped_pid });
            let asked = ensure_step(stopped.0);
            let reported = spawned_step(asked.0, successor_pid);
            let after = observe_step(reported.0, stopped_pid, event);
            &&& stopped == (WorkerState::Stopped, StopDecision::Terminate { pid: stopped_pid })
            &&& asked.1 == StartDecision::Spawn
            &&& reported.1 == SpawnVerdict::Track
            &&& after == WorkerState::Running { pid: successor_pid }
        }),
{
}

} // verus!
