//! The adapter's lifecycle: one engine process and one channel, at most one
//! solve in flight, and an idempotent, terminal stop.
use vstd::prelude::*;

verus! {

/// Where the adapter stands once constructed.
#[derive(Clone, Copy, Debug, PartialEq, Eq, Structural)]
pub enum AdapterState {
    /// Idle, ready to take a solve.
    Ready,
    /// A solve is in flight on the channel.
    Solving,
    /// Terminal: the engine process has been stopped.
    Stopped,
}

/// What a stop request asks of the process supervisor.
#[derive(Clone, Copy, Debug, PartialEq, Eq, Structural)]
pub enum StopAction {
    /// Ask the process to terminate, wait a bounded time, release it.
    Terminate,
    /// The process is already released: nothing to do.
    Nothing,
}

/// The state after a request to start a solve, and whether it may start.
pub open spec fn after_begin(s: AdapterState) -> (AdapterState, bool) {
    match s {
        AdapterState::Ready => (AdapterState::Solving, true),
        _ => (s, false),
    }
}

/// The state after a solve has finished, whatever its outcome.
pub open spec fn after_end(s: AdapterState) -> AdapterState {
    match s {
        AdapterState::Solving => AdapterState::Ready,
        _ => s,
    }
}

/// The state after a stop request, and what the supervisor is to do.
pub open spec fn after_stop(s: AdapterState) -> (AdapterState, StopAction) {
    match s {
        AdapterState::Stopped => (AdapterState::Stopped, StopAction::Nothing),
        _ => (AdapterState::Stopped, StopAction::Terminate),
    }
}

/// The adapter's lifecycle state.
pub struct Lifecycle {
    state: AdapterState,
}

impl View for Lifecycle {
    type V = AdapterState;

    closed spec fn view(&self) -> AdapterState {
        self.state
    }
}

impl Lifecycle {
    /// The state of an adapter whose process was spawned and whose channel
    /// was connected.
    pub fn new() -> (r: Lifecycle)
        ensures
            r@ == AdapterState::Ready,
    {
        Lifecycle { state: AdapterState::Ready }
    }

    pub fn state(&self) -> (r: AdapterState)
        ensures
            r == self@,
    {
        self.state
    }

    /// Takes the channel for one solve if it is idle; a caller refused here
    /// waits for the solve in flight to end.
    pub fn begin_solve(&mut self) -> (ok: bool)
        ensures
            (final(self)@, ok) == after_begin(old(self)@),
    {
        if self.state == AdapterState::Ready {
            self.state = AdapterState::Solving;
            true
        } else {
            false
        }
    }

    /// Releases the channel after a solve, whether it succeeded or failed.
    pub fn end_solve(&mut self)
        ensures
            final(self)@ == after_end(old(self)@),
    {
        if self.state == AdapterState::Solving {
            self.state = AdapterState::Ready;
        }
    }

    /// Moves to the terminal state; only the first call asks for the process
    /// to be terminated.
    pub fn stop(&mut self) -> (a: StopAction)
        ensures
            (final(self)@, a) == after_stop(old(self)@),
    {
        if self.state == AdapterState::Stopped {
            StopAction::Nothing
        } else {
            self.state = AdapterState::Stopped;
            StopAction::Terminate
        }
    }

    /// An interrupt is delivered only to a process that has not been
    /// released.
    pub fn may_interrupt(&self) -> (r: bool)
        ensures
            r == (self@ != AdapterState::Stopped),
    {
        self.state != AdapterState::Stopped
    }
}

/// Stopping is idempotent: a second stop leaves the adapter stopped and asks
/// nothing more of the supervisor.
pub proof fn lemma_stop_idempotent(s: AdapterState)
    ensures
        after_stop(s).0 == AdapterState::Stopped,
        after_stop(after_stop(s).0) == (AdapterState::Stopped, StopAction::Nothing),
{
}

/// No transition leaves the stopped state.
pub proof fn lemma_stopped_is_terminal()
    ensures
        after_begin(AdapterState::Stopped) == (AdapterState::Stopped, false),
        after_end(AdapterState::Stopped) == AdapterState::Stopped,
        after_stop(AdapterState::Stopped).0 == AdapterState::Stopped,
{
}

/// Solves are single-flight: once one has started, no other starts until it
/// has ended, and after it ends the adapter takes the next one.
pub proof fn lemma_single_flight(s: AdapterState)
    ensures
        after_begin(s).1 ==> !after_begin(after_begin(s).0).1,
        after_begin(s).1 ==> after_begin(after_end(after_begin(s).0)).1,
{
}

} // verus!
