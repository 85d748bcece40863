//! Keeping the resolved values at what is wanted.
//!
//! Once a second the frame rate is read in the live process and written back
//! where it differs from the wanted one; the vertical-sync flag is read and
//! cleared where it is set. A failed read or write is reported and forgotten:
//! the next tick tries again. Only the end of the process ends the loop.
//!
//! The loop is a machine that decides; whoever drives it asks the operating
//! system, sleeps, reads and writes, and reports back what came of it.

use crate::address::RemoteAddress;
use crate::error::ErrorKind;
use vstd::prelude::*;

verus! {

/// The pause of every tick, in milliseconds.
pub const TICK_INTERVAL_MS: u64 = 1000;

/// The frame rate that is enforced where none is asked for.
pub const DEFAULT_FPS: i32 = 120;

/// Which of the two values a monitored value is.
#[derive(Clone, Copy, Debug, PartialEq, Eq, Structural)]
pub enum ValueKind {
    /// The frame-rate limit: a positive number of frames per second.
    FrameRate,
    /// The vertical-sync flag: zero while vertical sync is off.
    Vsync,
}

/// A 32-bit value of the live process that is held at a wanted value.
#[derive(Clone, Copy, Debug, PartialEq, Eq, Structural)]
pub struct MonitoredValue {
    /// Where the value lies in the process.
    pub address: RemoteAddress,
    /// What it is to be.
    pub desired: i32,
    /// Which value it is.
    pub kind: ValueKind,
}

impl MonitoredValue {
    /// A wanted frame rate is positive; the wanted vertical-sync flag is zero.
    pub open spec fn valid(self) -> bool {
        match self.kind {
            ValueKind::FrameRate => self.desired >= 1,
            ValueKind::Vsync => self.desired == 0,
        }
    }

    /// Whether the value is to be written when `observed` was read. A
    /// negative frame rate is taken as "not ready yet" and left alone.
    pub open spec fn overrides(self, observed: i32) -> bool {
        match self.kind {
            ValueKind::FrameRate => observed >= 0 && observed != self.desired,
            ValueKind::Vsync => observed != self.desired,
        }
    }

    /// The frame rate at `address`, to be held at `fps`, and at 1 where `fps`
    /// is not positive.
    pub fn frame_rate(address: RemoteAddress, fps: i32) -> (value: MonitoredValue)
        ensures
            value == (MonitoredValue {
                address,
                desired: if fps < 1 {
                    1
                } else {
                    fps
                },
                kind: ValueKind::FrameRate,
            }),
            value.valid(),
    {
        MonitoredValue {
            address,
            desired: if fps < 1 {
                1
            } else {
                fps
            },
            kind: ValueKind::FrameRate,
        }
    }

    /// The vertical-sync flag at `address`, to be held at zero.
    pub fn vsync(address: RemoteAddress) -> (value: MonitoredValue)
        ensures
            value == (MonitoredValue { address, desired: 0, kind: ValueKind::Vsync }),
            value.valid(),
    {
        MonitoredValue { address, desired: 0, kind: ValueKind::Vsync }
    }

    /// Decides whether the value has to be written after `observed` was read.
    pub fn needs_write(&self, observed: i32) -> (write: bool)
        ensures
            write == self.overrides(observed),
    {
        match self.kind {
            ValueKind::FrameRate => observed >= 0 && observed != self.desired,
            ValueKind::Vsync => observed != self.desired,
        }
    }
}

/// The steps of one tick, in their order.
#[derive(Clone, Copy, Debug, PartialEq, Eq, Structural)]
pub enum Phase {
    /// Whether the process still runs is to be asked.
    Liveness,
    /// The pause of the tick is due.
    Pause,
    /// The frame rate is to be read.
    ReadFrameRate,
    /// The frame rate is to be written; `observed` is what was read.
    WriteFrameRate { observed: i32 },
    /// The vertical-sync flag is to be read.
    ReadVsync,
    /// The vertical-sync flag is to be written.
    WriteVsync,
}

/// The two states of the loop.
#[derive(Clone, Copy, Debug, PartialEq, Eq, Structural)]
pub enum LoopState {
    /// The loop runs and stands at this step of a tick.
    Active(Phase),
    /// The process has ended, and the loop with it.
    Terminated,
}

/// What the driver of the loop has observed.
#[derive(Clone, Copy, Debug, PartialEq, Eq, Structural)]
pub enum LoopEvent {
    /// Whether the process still runs. A question that the operating system
    /// did not answer counts as `false`.
    Alive(bool),
    /// The pause is over.
    Slept,
    /// The read gave this value.
    Value(i32),
    /// The read failed.
    ReadFailed,
    /// The write succeeded.
    Written,
    /// The write failed.
    WriteFailed,
}

/// What the driver of the loop has to do next.
#[derive(Clone, Copy, Debug, PartialEq, Eq, Structural)]
pub enum LoopAction {
    /// Ask whether the process still runs.
    CheckAlive,
    /// Pause for this many milliseconds.
    Sleep(u64),
    /// Read four bytes at this address of the live process.
    Read(RemoteAddress),
    /// Write this value, four bytes, at this address of the live process.
    Write(RemoteAddress, i32),
    /// Nothing: the loop is over.
    Stop,
}

/// What happened in a step that is worth telling.
#[derive(Clone, Copy, Debug, PartialEq, Eq, Structural)]
pub enum Notice {
    /// The frame rate was `from` and has been set to `to`.
    FrameRateForced { from: i32, to: i32 },
    /// The frame rate could not be read.
    FrameRateReadFailed,
    /// The frame rate could not be written.
    FrameRateWriteFailed,
    /// Vertical sync was on and has been switched off.
    VsyncDisabled,
    /// The vertical-sync flag could not be read.
    VsyncReadFailed,
    /// The vertical-sync flag could not be written.
    VsyncWriteFailed,
}

/// The answer of the loop to an event.
#[derive(Clone, Copy, Debug, PartialEq, Eq, Structural)]
pub struct Step {
    /// What the driver has to do next.
    pub action: LoopAction,
    /// What the event meant, where that is worth telling.
    pub notice: Option<Notice>,
}

/// The loop that holds the frame rate, and the vertical-sync flag where that
/// is asked for and was found, at their wanted values.
#[derive(Clone, Copy, Debug, PartialEq, Eq, Structural)]
pub struct EnforcementLoop {
    /// The frame rate.
    pub frame_rate: MonitoredValue,
    /// The vertical-sync flag, where it is enforced.
    pub vsync: Option<MonitoredValue>,
    /// Where the loop stands.
    pub state: LoopState,
}

impl EnforcementLoop {
    /// The loop holds a frame rate and, if anything more, a vertical-sync
    /// flag, both with wanted values that are valid for them.
    pub open spec fn wf(self) -> bool {
        &&& self.frame_rate.kind == ValueKind::FrameRate
        &&& self.frame_rate.valid()
        &&& self.vsync matches Some(flag) ==> flag.kind == ValueKind::Vsync && flag.valid()
    }

    /// The step that follows the frame rate in a tick.
    pub open spec fn after_frame_rate(self) -> LoopState {
        if self.vsync is Some {
            LoopState::Active(Phase::ReadVsync)
        } else {
            LoopState::Active(Phase::Liveness)
        }
    }

    /// The state that follows the present one on `event`. An event that does
    /// not answer what the state asked for changes nothing.
    pub open spec fn next_state(self, event: LoopEvent) -> LoopState {
        match (self.state, event) {
            (LoopState::Active(Phase::Liveness), LoopEvent::Alive(alive)) => if alive {
                LoopState::Active(Phase::Pause)
            } else {
                LoopState::Terminated
            },
            (LoopState::Active(Phase::Pause), LoopEvent::Slept) => LoopState::Active(
                Phase::ReadFrameRate,
            ),
            (LoopState::Active(Phase::ReadFrameRate), LoopEvent::Value(observed)) => {
                if self.frame_rate.overrides(observed) {
                    LoopState::Active(Phase::WriteFrameRate { observed })
                } else {
                    self.after_frame_rate()
                }
            },
            (LoopState::Active(Phase::ReadFrameRate), LoopEvent::ReadFailed) => {
                self.after_frame_rate()
            },
            (LoopState::Active(Phase::WriteFrameRate { .. }), LoopEvent::Written) => {
                self.after_frame_rate()
            },
            (LoopState::Active(Phase::WriteFrameRate { .. }), LoopEvent::WriteFailed) => {
                self.after_frame_rate()
            },
            (LoopState::Active(Phase::ReadVsync), LoopEvent::Value(observed)) => {
                if self.vsync matches Some(flag) && flag.overrides(observed) {
                    LoopState::Active(Phase::WriteVsync)
                } else {
                    LoopState::Active(Phase::Liveness)
                }
            },
            (LoopState::Active(Phase::ReadVsync), LoopEvent::ReadFailed) => LoopState::Active(
                Phase::Liveness,
            ),
            (LoopState::Active(Phase::WriteVsync), LoopEvent::Written) => LoopState::Active(
                Phase::Liveness,
            ),
            (LoopState::Active(Phase::WriteVsync), LoopEvent::WriteFailed) => LoopState::Active(
                Phase::Liveness,
            ),
            _ => self.state,
        }
    }

    /// What `event` means in the present state, where that is worth telling.
    pub open spec fn notice_of(self, event: LoopEvent) -> Option<Notice> {
        match (self.state, event) {
            (LoopState::Active(Phase::ReadFrameRate), LoopEvent::ReadFailed) => Some(
                Notice::FrameRateReadFailed,
            ),
            (LoopState::Active(Phase::WriteFrameRate { observed }), LoopEvent::Written) => Some(
                Notice::FrameRateForced { from: observed, to: self.frame_rate.desired },
            ),
            (LoopState::Active(Phase::WriteFrameRate { .. }), LoopEvent::WriteFailed) => Some(
                Notice::FrameRateWriteFailed,
            ),
            (LoopState::Active(Phase::ReadVsync), LoopEvent::ReadFailed) => Some(
                Notice::VsyncReadFailed,
            ),
            (LoopState::Active(Phase::WriteVsync), LoopEvent::Written) => Some(
                Notice::VsyncDisabled,
            ),
            (LoopState::Active(Phase::WriteVsync), LoopEvent::WriteFailed) => Some(
                Notice::VsyncWriteFailed,
            ),
            _ => None,
        }
    }

    /// What the loop asks of its driver in its present state.
    pub open spec fn pending(self) -> LoopAction {
        match self.state {
            LoopState::Active(Phase::Liveness) => LoopAction::CheckAlive,
            LoopState::Active(Phase::Pause) => LoopAction::Sleep(TICK_INTERVAL_MS),
            LoopState::Active(Phase::ReadFrameRate) => LoopAction::Read(self.frame_rate.address),
            LoopState::Active(Phase::WriteFrameRate { .. }) => LoopAction::Write(
                self.frame_rate.address,
                self.frame_rate.desired,
            ),
            LoopState::Active(Phase::ReadVsync) => match self.vsync {
                Some(flag) => LoopAction::Read(flag.address),
                None => LoopAction::CheckAlive,
            },
            LoopState::Active(Phase::WriteVsync) => match self.vsync {
                Some(flag) => LoopAction::Write(flag.address, flag.desired),
                None => LoopAction::CheckAlive,
            },
            LoopState::Terminated => LoopAction::Stop,
        }
    }

    /// The loop in the state `state`.
    pub open spec fn at(self, state: LoopState) -> EnforcementLoop {
        EnforcementLoop { frame_rate: self.frame_rate, vsync: self.vsync, state }
    }

    /// The loop after a run of events.
    pub open spec fn run(self, events: Seq<LoopEvent>) -> EnforcementLoop
        decreases events.len(),
    {
        if events.len() == 0 {
            self
        } else {
            let before = self.run(events.drop_last());
            before.at(before.next_state(events.last()))
        }
    }

    /// Starts the loop for a frame rate of `fps` at `frame_rate`, and for the
    /// vertical-sync flag at `vsync` where there is one. The first thing asked
    /// is whether the process runs.
    pub fn new(
        frame_rate: RemoteAddress,
        fps: i32,
        vsync: Option<RemoteAddress>,
    ) -> (started: EnforcementLoop)
        ensures
            started.frame_rate == (MonitoredValue {
                address: frame_rate,
                desired: if fps < 1 {
                    1
                } else {
                    fps
                },
                kind: ValueKind::FrameRate,
            }),
            started.vsync == (match vsync {
                Some(address) => Some(
                    MonitoredValue { address, desired: 0, kind: ValueKind::Vsync },
                ),
                None => None::<MonitoredValue>,
            }),
            started.state == LoopState::Active(Phase::Liveness),
            started.wf(),
    {
        EnforcementLoop {
            frame_rate: MonitoredValue::frame_rate(frame_rate, fps),
            vsync: match vsync {
                Some(address) => Some(MonitoredValue::vsync(address)),
                None => None,
            },
            state: LoopState::Active(Phase::Liveness),
        }
    }

    /// Starts the loop from what resolution gave. The frame rate is required:
    /// without its address there is no loop, and the failure is handed on. The
    /// vertical-sync flag is optional: where it was not asked for, or not
    /// found, the loop runs without it.
    pub fn plan(
        frame_rate: Result<RemoteAddress, ErrorKind>,
        fps: i32,
        vsync: Option<Result<RemoteAddress, ErrorKind>>,
    ) -> (planned: Result<EnforcementLoop, ErrorKind>)
        ensures
            match frame_rate {
                Err(error) => planned == Err::<EnforcementLoop, ErrorKind>(error),
                Ok(address) => {
                    &&& planned matches Ok(started)
                    &&& started.wf()
                    &&& started.state == LoopState::Active(Phase::Liveness)
                    &&& started.frame_rate.address == address
                    &&& started.frame_rate.desired == (if fps < 1 {
                        1
                    } else {
                        fps
                    })
                    &&& match vsync {
                        Some(Ok(flag)) => started.vsync == Some(
                            MonitoredValue { address: flag, desired: 0, kind: ValueKind::Vsync },
                        ),
                        _ => started.vsync is None,
                    }
                },
            },
    {
        let address = match frame_rate {
            Ok(address) => address,
            Err(error) => {
                return Err(error);
            },
        };
        let flag = match vsync {
            Some(Ok(flag)) => Some(flag),
            _ => None,
        };
        Ok(EnforcementLoop::new(address, fps, flag))
    }

    /// What the driver has to do now.
    pub fn action(&self) -> (action: LoopAction)
        ensures
            action == self.pending(),
    {
        match self.state {
            LoopState::Active(Phase::Liveness) => LoopAction::CheckAlive,
            LoopState::Active(Phase::Pause) => LoopAction::Sleep(TICK_INTERVAL_MS),
            LoopState::Active(Phase::ReadFrameRate) => LoopAction::Read(self.frame_rate.address),
            LoopState::Active(Phase::WriteFrameRate { .. }) => LoopAction::Write(
                self.frame_rate.address,
                self.frame_rate.desired,
            ),
            LoopState::Active(Phase::ReadVsync) => match self.vsync {
                Some(flag) => LoopAction::Read(flag.address),
                None => LoopAction::CheckAlive,
            },
            LoopState::Active(Phase::WriteVsync) => match self.vsync {
                Some(flag) => LoopAction::Write(flag.address, flag.desired),
                None => LoopAction::CheckAlive,
            },
            LoopState::Terminated => LoopAction::Stop,
        }
    }

    /// Whether the loop is over.
    pub fn is_terminated(&self) -> (over: bool)
        ensures
            over == (self.state == LoopState::Terminated),
    {
        match self.state {
            LoopState::Terminated => true,
            _ => false,
        }
    }

    fn past_frame_rate(&self) -> (state: LoopState)
        ensures
            state == self.after_frame_rate(),
    {
        match self.vsync {
            Some(_) => LoopState::Active(Phase::ReadVsync),
            None => LoopState::Active(Phase::Liveness),
        }
    }

    /// Takes in what the driver observed, and says what it has to do next and
    /// what there is to tell.
    pub fn step(&mut self, event: LoopEvent) -> (step: Step)
        ensures
            final(self).state == old(self).next_state(event),
            final(self).frame_rate == old(self).frame_rate,
            final(self).vsync == old(self).vsync,
            step.action == final(self).pending(),
            step.notice == old(self).notice_of(event),
    {
        let idle = LoopState::Active(Phase::Liveness);
        let (next, notice) = match (self.state, event) {
            (LoopState::Active(Phase::Liveness), LoopEvent::Alive(alive)) => if alive {
                (LoopState::Active(Phase::Pause), None)
            } else {
                (LoopState::Terminated, None)
            },
            (LoopState::Active(Phase::Pause), LoopEvent::Slept) => (
                LoopState::Active(Phase::ReadFrameRate),
                None,
            ),
            (LoopState::Active(Phase::ReadFrameRate), LoopEvent::Value(observed)) => {
                if self.frame_rate.needs_write(observed) {
                    (LoopState::Active(Phase::WriteFrameRate { observed }), None)
                } else {
                    (self.past_frame_rate(), None)
                }
            },
            (LoopState::Active(Phase::ReadFrameRate), LoopEvent::ReadFailed) => (
                self.past_frame_rate(),
                Some(Notice::FrameRateReadFailed),
            ),
            (LoopState::Active(Phase::WriteFrameRate { observed }), LoopEvent::Written) => (
                self.past_frame_rate(),
                Some(Notice::FrameRateForced { from: observed, to: self.frame_rate.desired }),
            ),
            (LoopState::Active(Phase::WriteFrameRate { .. }), LoopEvent::WriteFailed) => (
                self.past_frame_rate(),
                Some(Notice::FrameRateWriteFailed),
            ),
            (LoopState::Active(Phase::ReadVsync), LoopEvent::Value(observed)) => {
                let write = match self.vsync {
                    Some(flag) => flag.needs_write(observed),
                    None => false,
                };
                if write {
                    (LoopState::Active(Phase::WriteVsync), None)
                } else {
                    (idle, None)
                }
            },
            (LoopState::Active(Phase::ReadVsync), LoopEvent::ReadFailed) => (
                idle,
                Some(Notice::VsyncReadFailed),
            ),
            (LoopState::Active(Phase::WriteVsync), LoopEvent::Written) => (
                idle,
                Some(Notice::VsyncDisabled),
            ),
            (LoopState::Active(Phase::WriteVsync), LoopEvent::WriteFailed) => (
                idle,
                Some(Notice::VsyncWriteFailed),
            ),
            (state, _) => (state, None),
        };
        self.state = next;
        Step { action: self.action(), notice }
    }
}

/// The place of a state in a tick: the steps in their order, and the end of
/// the loop behind them all.
pub open spec fn rank(state: LoopState) -> int {
    match state {
        LoopState::Active(Phase::Liveness) => 0,
        LoopState::Active(Phase::Pause) => 1,
        LoopState::Active(Phase::ReadFrameRate) => 2,
        LoopState::Active(Phase::WriteFrameRate { .. }) => 3,
        LoopState::Active(Phase::ReadVsync) => 4,
        LoopState::Active(Phase::WriteVsync) => 5,
        LoopState::Terminated => 6,
    }
}

/// The frame rate is written exactly when it was read, is not negative and
/// differs from the wanted one: then the next thing asked of the driver is
/// the write of the wanted value. After any other value that was read, and
/// after a read that failed, no write is asked for.
pub proof fn law_frame_rate_write(enforcer: EnforcementLoop, event: LoopEvent)
    requires
        enforcer.wf(),
        enforcer.state == LoopState::Active(Phase::ReadFrameRate),
        event is Value || event is ReadFailed,
    ensures
        ({
            let next = enforcer.at(enforcer.next_state(event));
            let wanted = enforcer.frame_rate.desired;
            if event matches LoopEvent::Value(observed) && observed >= 0 && observed != wanted {
                next.pending() == LoopAction::Write(enforcer.frame_rate.address, wanted)
            } else {
                !(next.pending() is Write)
            }
        }),
{
}

/// The vertical-sync flag is written exactly when it was read and is not
/// zero: then the next thing asked of the driver is the write of zero.
pub proof fn law_vsync_write(enforcer: EnforcementLoop, event: LoopEvent)
    requires
        enforcer.wf(),
        enforcer.vsync is Some,
        enforcer.state == LoopState::Active(Phase::ReadVsync),
        event is Value || event is ReadFailed,
    ensures
        ({
            let next = enforcer.at(enforcer.next_state(event));
            if event matches LoopEvent::Value(observed) && observed != 0 {
                next.pending() == LoopAction::Write(enforcer.vsync->0.address, 0)
            } else {
                !(next.pending() is Write)
            }
        }),
{
}

/// A tick runs through its steps in their order and through none of them
/// twice: an event leaves the state as it is, or leads to a later step of
/// the same tick, or to the liveness question that begins the next one, or
/// to the end of the loop. So a tick holds at most one write of each value.
pub proof fn law_tick_order(enforcer: EnforcementLoop, event: LoopEvent)
    ensures
        ({
            let next = enforcer.next_state(event);
            ||| next == enforcer.state
            ||| next == LoopState::Active(Phase::Liveness)
            ||| rank(next) > rank(enforcer.state)
        }),
{
}

/// One tick of a live process, as far as the frame rate goes: the driver is
/// asked to pause and then to read the frame rate; it is asked to write the
/// wanted rate if and only if the rate that was read is not negative and
/// differs; and when that one write is answered, with success or without,
/// the tick goes on to what follows the frame rate. So there is exactly one
/// write while the rates differ, and none once they are equal.
pub proof fn law_tick_of_frame_rate(enforcer: EnforcementLoop, observed: i32, answer: LoopEvent)
    requires
        enforcer.wf(),
        enforcer.state == LoopState::Active(Phase::Liveness),
        answer is Written || answer is WriteFailed,
    ensures
        ({
            let woken = seq![LoopEvent::Alive(true), LoopEvent::Slept];
            let read = woken.push(LoopEvent::Value(observed));
            let wanted = enforcer.frame_rate.desired;
            let address = enforcer.frame_rate.address;
            &&& enforcer.run(seq![LoopEvent::Alive(true)]).pending() == LoopAction::Sleep(
                TICK_INTERVAL_MS,
            )
            &&& enforcer.run(woken).pending() == LoopAction::Read(address)
            &&& if observed >= 0 && observed != wanted {
                &&& enforcer.run(read).pending() == LoopAction::Write(address, wanted)
                &&& enforcer.run(read.push(answer)).state == enforcer.after_frame_rate()
            } else {
                enforcer.run(read).state == enforcer.after_frame_rate()
            }
        }),
{
    let first = seq![LoopEvent::Alive(true)];
    let woken = seq![LoopEvent::Alive(true), LoopEvent::Slept];
    let read = woken.push(LoopEvent::Value(observed));
    let done = read.push(answer);
    assert(first.drop_last() =~= Seq::<LoopEvent>::empty());
    assert(enforcer.run(first.drop_last()) == enforcer);
    assert(woken.drop_last() =~= first);
    assert(read.drop_last() =~= woken);
    assert(done.drop_last() =~= read);
    assert(enforcer.run(first).state == LoopState::Active(Phase::Pause));
    assert(enforcer.run(woken).state == LoopState::Active(Phase::ReadFrameRate));
}

/// The loop ends on the first tick on which the process is reported dead,
/// and on nothing else: no failed read or write ends it.
pub proof fn law_only_death_terminates(enforcer: EnforcementLoop, event: LoopEvent)
    requires
        enforcer.state != LoopState::Terminated,
    ensures
        enforcer.next_state(event) == LoopState::Terminated <==> (enforcer.state
            == LoopState::Active(Phase::Liveness) && event == LoopEvent::Alive(false)),
{
}

/// Once the loop has ended it stays ended, whatever is reported to it, and
/// asks for no read and no write any more.
pub proof fn law_terminated_is_final(enforcer: EnforcementLoop, events: Seq<LoopEvent>)
    requires
        enforcer.state == LoopState::Terminated,
    ensures
        enforcer.run(events).state == LoopState::Terminated,
        enforcer.run(events).pending() == LoopAction::Stop,
    decreases events.len(),
{
    if events.len() > 0 {
        law_terminated_is_final(enforcer, events.drop_last());
    }
}

/// When the process is reported dead at the start of a tick, the loop asks
/// for no read and no write in that tick, nor ever after, whatever is
/// reported to it later.
pub proof fn law_death_ends_the_loop(enforcer: EnforcementLoop, later: Seq<LoopEvent>)
    requires
        enforcer.state == LoopState::Active(Phase::Liveness),
    ensures
        enforcer.run(seq![LoopEvent::Alive(false)] + later).state == LoopState::Terminated,
        enforcer.run(seq![LoopEvent::Alive(false)] + later).pending() == LoopAction::Stop,
    decreases later.len(),
{
    let death = seq![LoopEvent::Alive(false)];
    if later.len() == 0 {
        assert(death + later =~= death);
        assert(death.drop_last() =~= Seq::<LoopEvent>::empty());
        assert(enforcer.run(death.drop_last()) == enforcer);
    } else {
        law_death_ends_the_loop(enforcer, later.drop_last());
        assert((death + later).drop_last() =~= death + later.drop_last());
    }
}

} // verus!
