//! Waiting for the target, as decisions.
//!
//! Two things are waited for: a module that the target has not loaded yet,
//! and a pointer slot that it has not filled yet. Neither wait has a
//! timeout; what ends a wait without success is the end of the process.
//! The machines here decide what to do next from what was just observed.
//! Whoever drives them sleeps, reads and asks the operating system.

use crate::address::RemoteAddress;
use crate::error::ErrorKind;
use vstd::prelude::*;

verus! {

/// The pause between two tries of a wait, in milliseconds.
pub const RETRY_INTERVAL_MS: u64 = 200;

/// How a wait repeats: after a fixed pause, and without a limit on the
/// number of tries.
#[derive(Clone, Copy, Debug, PartialEq, Eq, Structural)]
pub struct RetryPolicy {
    /// The pause between two tries, in milliseconds.
    pub interval_ms: u64,
}

impl RetryPolicy {
    /// The policy of both waits: a try every 200 milliseconds.
    pub fn standard() -> (policy: RetryPolicy)
        ensures
            policy.interval_ms == RETRY_INTERVAL_MS,
    {
        RetryPolicy { interval_ms: RETRY_INTERVAL_MS }
    }
}

/// Where the wait for a pointer slot stands.
#[derive(Clone, Copy, Debug, PartialEq, Eq, Structural)]
pub enum PollState {
    /// The slot is to be read.
    Reading,
    /// The slot held zero; a pause is due before the next read.
    Sleeping,
    /// The slot held this address.
    Ready(RemoteAddress),
    /// The wait has failed.
    Failed(ErrorKind),
}

/// What the driver of a poll has observed.
#[derive(Clone, Copy, Debug, PartialEq, Eq, Structural)]
pub enum PollEvent {
    /// The read of the slot gave this value.
    Value(u64),
    /// The read of the slot failed.
    ReadFailed,
    /// The pause is over.
    Slept,
}

/// What the driver of a poll has to do next.
#[derive(Clone, Copy, Debug, PartialEq, Eq, Structural)]
pub enum PollAction {
    /// Read eight bytes at this address of the live process.
    Read(RemoteAddress),
    /// Pause for this many milliseconds.
    Sleep(u64),
    /// Nothing: the poll is over.
    Finish,
}

/// The wait for a pointer slot of the live process to become non-zero.
#[derive(Clone, Copy, Debug, PartialEq, Eq, Structural)]
pub struct SlotPoll {
    /// The address of the slot.
    pub slot: RemoteAddress,
    /// How the read repeats.
    pub policy: RetryPolicy,
    /// Where the wait stands.
    pub state: PollState,
}

impl SlotPoll {
    /// The state that follows `state` on `event`. An event that does not
    /// answer what the state asked for changes nothing.
    pub open spec fn next_state(state: PollState, event: PollEvent) -> PollState {
        match (state, event) {
            (PollState::Reading, PollEvent::Value(value)) => if value == 0 {
                PollState::Sleeping
            } else {
                PollState::Ready(RemoteAddress(value))
            },
            (PollState::Reading, PollEvent::ReadFailed) => PollState::Failed(
                ErrorKind::MemoryReadFailed,
            ),
            (PollState::Sleeping, PollEvent::Slept) => PollState::Reading,
            _ => state,
        }
    }

    /// What the poll asks of its driver in its present state.
    pub open spec fn pending(self) -> PollAction {
        match self.state {
            PollState::Reading => PollAction::Read(self.slot),
            PollState::Sleeping => PollAction::Sleep(self.policy.interval_ms),
            _ => PollAction::Finish,
        }
    }

    /// The state after a run of events.
    pub open spec fn run(state: PollState, events: Seq<PollEvent>) -> PollState
        decreases events.len(),
    {
        if events.len() == 0 {
            state
        } else {
            Self::next_state(Self::run(state, events.drop_last()), events.last())
        }
    }

    /// Starts a poll of `slot`: the slot is to be read first.
    pub fn new(slot: RemoteAddress, policy: RetryPolicy) -> (poll: SlotPoll)
        ensures
            poll == (SlotPoll { slot, policy, state: PollState::Reading }),
    {
        SlotPoll { slot, policy, state: PollState::Reading }
    }

    /// What the driver has to do now.
    pub fn action(&self) -> (action: PollAction)
        ensures
            action == self.pending(),
    {
        match self.state {
            PollState::Reading => PollAction::Read(self.slot),
            PollState::Sleeping => PollAction::Sleep(self.policy.interval_ms),
            _ => PollAction::Finish,
        }
    }

    /// Takes in what the driver observed and says what it has to do next.
    pub fn step(&mut self, event: PollEvent) -> (action: PollAction)
        ensures
            final(self).state == Self::next_state(old(self).state, event),
            final(self).slot == old(self).slot,
            final(self).policy == old(self).policy,
            action == final(self).pending(),
    {
        let next = match (self.state, event) {
            (PollState::Reading, PollEvent::Value(value)) => if value == 0 {
                PollState::Sleeping
            } else {
                PollState::Ready(RemoteAddress(value))
            },
            (PollState::Reading, PollEvent::ReadFailed) => PollState::Failed(
                ErrorKind::MemoryReadFailed,
            ),
            (PollState::Sleeping, PollEvent::Slept) => PollState::Reading,
            (state, _) => state,
        };
        self.state = next;
        self.action()
    }

    /// How the poll ended: `None` while it is still under way.
    pub fn outcome(&self) -> (outcome: Option<Result<RemoteAddress, ErrorKind>>)
        ensures
            outcome == (match self.state {
                PollState::Ready(address) => Some(Ok::<RemoteAddress, ErrorKind>(address)),
                PollState::Failed(error) => Some(Err::<RemoteAddress, ErrorKind>(error)),
                _ => None::<Result<RemoteAddress, ErrorKind>>,
            }),
    {
        match self.state {
            PollState::Ready(address) => Some(Ok(address)),
            PollState::Failed(error) => Some(Err(error)),
            _ => None,
        }
    }
}

/// A poll that was started fresh never delivers the null address, and fails
/// only for a read that failed: whatever the driver reports, in whatever
/// order.
pub proof fn law_poll_delivers_non_zero(events: Seq<PollEvent>)
    ensures
        SlotPoll::run(PollState::Reading, events) matches PollState::Ready(address) ==> address.0
            != 0,
        SlotPoll::run(PollState::Reading, events) matches PollState::Failed(error) ==> error
            == ErrorKind::MemoryReadFailed,
    decreases events.len(),
{
    if events.len() > 0 {
        law_poll_delivers_non_zero(events.drop_last());
    }
}

/// Once a poll is over it stays over: no event leads out of `Ready` or
/// `Failed`, and the driver is asked for nothing more.
pub proof fn law_poll_end_is_final(poll: SlotPoll, event: PollEvent)
    requires
        poll.state is Ready || poll.state is Failed,
    ensures
        SlotPoll::next_state(poll.state, event) == poll.state,
        poll.pending() == PollAction::Finish,
{
}

/// Where the wait for a module stands.
#[derive(Clone, Copy, Debug, PartialEq, Eq, Structural)]
pub enum WaitState {
    /// A pause is due before the next lookup.
    Sleeping,
    /// The module is to be looked up.
    Looking,
    /// The lookup failed; whether the process still runs is to be asked.
    Checking,
    /// The module was found and captured.
    Found,
    /// The process ended before the module appeared.
    Exited,
}

/// What the driver of a module wait has observed.
#[derive(Clone, Copy, Debug, PartialEq, Eq, Structural)]
pub enum WaitEvent {
    /// The pause is over.
    Slept,
    /// The lookup found and captured the module.
    Captured,
    /// The lookup failed.
    Missing(ErrorKind),
    /// Whether the process still runs.
    Alive(bool),
}

/// What the driver of a module wait has to do next.
#[derive(Clone, Copy, Debug, PartialEq, Eq, Structural)]
pub enum WaitAction {
    /// Pause for this many milliseconds.
    Sleep(u64),
    /// Look the module up and capture it.
    Lookup,
    /// Ask whether the process still runs.
    CheckAlive,
    /// Go on with the captured module.
    Proceed,
    /// Give up: the process has ended.
    Exit,
}

/// The wait for a module to be loaded by the target.
#[derive(Clone, Copy, Debug, PartialEq, Eq, Structural)]
pub struct ModuleWait {
    /// How the lookup repeats.
    pub policy: RetryPolicy,
    /// Where the wait stands.
    pub state: WaitState,
}

impl ModuleWait {
    /// The state that follows `state` on `event`. An event that does not
    /// answer what the state asked for changes nothing.
    pub open spec fn next_state(state: WaitState, event: WaitEvent) -> WaitState {
        match (state, event) {
            (WaitState::Sleeping, WaitEvent::Slept) => WaitState::Looking,
            (WaitState::Looking, WaitEvent::Captured) => WaitState::Found,
            (WaitState::Looking, WaitEvent::Missing(_)) => WaitState::Checking,
            (WaitState::Checking, WaitEvent::Alive(alive)) => if alive {
                WaitState::Sleeping
            } else {
                WaitState::Exited
            },
            _ => state,
        }
    }

    /// What the wait asks of its driver in its present state.
    pub open spec fn pending(self) -> WaitAction {
        match self.state {
            WaitState::Sleeping => WaitAction::Sleep(self.policy.interval_ms),
            WaitState::Looking => WaitAction::Lookup,
            WaitState::Checking => WaitAction::CheckAlive,
            WaitState::Found => WaitAction::Proceed,
            WaitState::Exited => WaitAction::Exit,
        }
    }

    /// Starts a wait: a pause comes first, then the first lookup.
    pub fn new(policy: RetryPolicy) -> (wait: ModuleWait)
        ensures
            wait == (ModuleWait { policy, state: WaitState::Sleeping }),
    {
        ModuleWait { policy, state: WaitState::Sleeping }
    }

    /// What the driver has to do now.
    pub fn action(&self) -> (action: WaitAction)
        ensures
            action == self.pending(),
    {
        match self.state {
            WaitState::Sleeping => WaitAction::Sleep(self.policy.interval_ms),
            WaitState::Looking => WaitAction::Lookup,
            WaitState::Checking => WaitAction::CheckAlive,
            WaitState::Found => WaitAction::Proceed,
            WaitState::Exited => WaitAction::Exit,
        }
    }

    /// Takes in what the driver observed and says what it has to do next.
    pub fn step(&mut self, event: WaitEvent) -> (action: WaitAction)
        ensures
            final(self).state == Self::next_state(old(self).state, event),
            final(self).policy == old(self).policy,
            action == final(self).pending(),
    {
        let next = match (self.state, event) {
            (WaitState::Sleeping, WaitEvent::Slept) => WaitState::Looking,
            (WaitState::Looking, WaitEvent::Captured) => WaitState::Found,
            (WaitState::Looking, WaitEvent::Missing(_)) => WaitState::Checking,
            (WaitState::Checking, WaitEvent::Alive(alive)) => if alive {
                WaitState::Sleeping
            } else {
                WaitState::Exited
            },
            (state, _) => state,
        };
        self.state = next;
        self.action()
    }

    /// How the wait ended: `None` while it is still under way, and
    /// `ProcessExited` where the process ended first.
    pub fn outcome(&self) -> (outcome: Option<Result<(), ErrorKind>>)
        ensures
            outcome == (match self.state {
                WaitState::Found => Some(Ok::<(), ErrorKind>(())),
                WaitState::Exited => Some(Err::<(), ErrorKind>(ErrorKind::ProcessExited)),
                _ => None::<Result<(), ErrorKind>>,
            }),
    {
        match self.state {
            WaitState::Found => Some(Ok(())),
            WaitState::Exited => Some(Err(ErrorKind::ProcessExited)),
            _ => None,
        }
    }
}

/// A wait gives up only when the process is reported dead after a lookup
/// that failed; a lookup that fails while the process runs is tried again.
pub proof fn law_wait_ends_with_process(wait: ModuleWait, event: WaitEvent)
    requires
        wait.state != WaitState::Exited,
    ensures
        ModuleWait::next_state(wait.state, event) == WaitState::Exited <==> (wait.state
            == WaitState::Checking && event == WaitEvent::Alive(false)),
        wait.state == WaitState::Checking && event == WaitEvent::Alive(true)
            ==> ModuleWait::next_state(wait.state, event) == WaitState::Sleeping,
{
}

} // verus!
