//! Lifecycle shared by the event loop and its handles.

use vstd::prelude::*;

verus! {

/// Lifecycle state published by the event loop and its handles.
#[derive(Clone, Copy, Debug, PartialEq, Eq, Structural)]
pub enum LoopState {
    /// The event loop may continue accepting and performing work.
    Running,
    /// Shutdown has been requested and no further events will be dispatched to
    /// the listener.
    ShutdownRequested,
    /// The event loop has stopped.
    Stopped,
}

/// Position of a state in the order Running, ShutdownRequested, Stopped.
pub open spec fn stage(state: LoopState) -> int {
    match state {
        LoopState::Running => 0,
        LoopState::ShutdownRequested => 1,
        LoopState::Stopped => 2,
    }
}

/// The state after a shutdown request: a running loop is asked to shut
/// down; any other state is kept.
pub open spec fn after_shutdown_request(state: LoopState) -> LoopState {
    if state == LoopState::Running {
        LoopState::ShutdownRequested
    } else {
        state
    }
}

/// The state at the start of another run: a stopped loop runs again; a
/// shutdown requested before the run is kept.
pub open spec fn after_restart(state: LoopState) -> LoopState {
    if state == LoopState::Stopped {
        LoopState::Running
    } else {
        state
    }
}

/// The state after stop publication: always stopped.
pub open spec fn after_stop(state: LoopState) -> LoopState {
    LoopState::Stopped
}

/// Whether publishing a stop changes the state, and so wakes the waiters.
pub open spec fn stop_wakes_waiters(state: LoopState) -> bool {
    state != LoopState::Stopped
}

impl LoopState {
    /// Whether the loop is accepting work.
    pub fn is_running(&self) -> (running: bool)
        ensures
            running == (*self == LoopState::Running),
    {
        match self {
            LoopState::Running => true,
            _ => false,
        }
    }

    /// Transition a running loop to shutdown requested. Returns whether the
    /// state changed; in any other state the request is a no-op.
    pub fn request_shutdown(&mut self) -> (changed: bool)
        ensures
            *final(self) == after_shutdown_request(*old(self)),
            changed == (*old(self) == LoopState::Running),
    {
        if self.is_running() {
            *self = LoopState::ShutdownRequested;
            true
        } else {
            false
        }
    }

    /// Begin another run. Returns whether the state changed: only a stopped
    /// loop changes, to running.
    pub fn restart(&mut self) -> (changed: bool)
        ensures
            *final(self) == after_restart(*old(self)),
            changed == (*old(self) == LoopState::Stopped),
    {
        match self {
            LoopState::Stopped => {
                *self = LoopState::Running;
                true
            },
            _ => false,
        }
    }

    /// Publish that the loop has stopped. Returns whether the state changed,
    /// which is when waiters must be notified.
    pub fn publish_stopped(&mut self) -> (changed: bool)
        ensures
            *final(self) == after_stop(*old(self)),
            changed == stop_wakes_waiters(*old(self)),
    {
        match self {
            LoopState::Stopped => false,
            _ => {
                *self = LoopState::Stopped;
                true
            },
        }
    }
}

/// Repeated shutdown requests have no additional effect: the second request
/// leaves the state as the first left it and reports no change.
pub proof fn law_shutdown_request_is_idempotent(state: LoopState)
    ensures
        after_shutdown_request(after_shutdown_request(state)) == after_shutdown_request(state),
        after_shutdown_request(state) != LoopState::Running,
{
}

/// Shutdown requests and stop publication never move the lifecycle backward;
/// only a restart returns a stopped loop to running.
pub proof fn law_lifecycle_only_restart_moves_backward(state: LoopState)
    ensures
        stage(after_shutdown_request(state)) >= stage(state),
        stage(LoopState::Stopped) >= stage(state),
        stage(after_restart(state)) < stage(state) ==> state == LoopState::Stopped
            && after_restart(state) == LoopState::Running,
{
}

/// A shutdown requested before a run starts is preserved by the restart at
/// the start of that run, so the run does no work.
pub proof fn law_restart_preserves_earlier_shutdown_request(state: LoopState)
    requires
        state != LoopState::Stopped,
    ensures
        after_restart(after_shutdown_request(state)) == LoopState::ShutdownRequested,
{
}

/// Waiters are woken once per stop: a second stop publication changes
/// nothing, and a shutdown request after the stop leaves the loop stopped.
pub proof fn law_stop_is_published_once(state: LoopState)
    ensures
        !stop_wakes_waiters(after_stop(state)),
        after_shutdown_request(after_stop(state)) == LoopState::Stopped,
        stop_wakes_waiters(state) <==> state != LoopState::Stopped,
{
}

} // verus!
