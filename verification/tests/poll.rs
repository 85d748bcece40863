use genshin_force_fps::address::RemoteAddress;
use genshin_force_fps::error::ErrorKind;
use genshin_force_fps::poll::{
    ModuleWait, PollAction, PollEvent, PollState, RetryPolicy, SlotPoll, WaitAction, WaitEvent, WaitState,
    RETRY_INTERVAL_MS,
};

#[test]
fn the_standard_policy_tries_every_200_milliseconds() {
    assert_eq!(RetryPolicy::standard().interval_ms, 200);
    assert_eq!(RETRY_INTERVAL_MS, 200);
}

#[test]
fn a_poll_begins_with_a_read_of_the_slot() {
    let poll = SlotPoll::new(RemoteAddress(0x1_0300), RetryPolicy::standard());
    assert_eq!(poll.state, PollState::Reading);
    assert_eq!(poll.action(), PollAction::Read(RemoteAddress(0x1_0300)));
    assert_eq!(poll.outcome(), None);
}

#[test]
fn a_poll_sleeps_and_reads_again_while_the_slot_is_zero() {
    let mut poll = SlotPoll::new(RemoteAddress(0x1_0300), RetryPolicy { interval_ms: 50 });
    for _ in 0..3 {
        assert_eq!(poll.step(PollEvent::Value(0)), PollAction::Sleep(50));
        assert_eq!(poll.outcome(), None);
        assert_eq!(poll.step(PollEvent::Slept), PollAction::Read(RemoteAddress(0x1_0300)));
    }
    assert_eq!(poll.step(PollEvent::Value(0x7FF6_1234_5678)), PollAction::Finish);
    assert_eq!(poll.outcome(), Some(Ok(RemoteAddress(0x7FF6_1234_5678))));
}

#[test]
fn a_poll_fails_when_the_read_fails() {
    let mut poll = SlotPoll::new(RemoteAddress(0x1_0300), RetryPolicy::standard());
    assert_eq!(poll.step(PollEvent::Value(0)), PollAction::Sleep(200));
    assert_eq!(poll.step(PollEvent::Slept), PollAction::Read(RemoteAddress(0x1_0300)));
    assert_eq!(poll.step(PollEvent::ReadFailed), PollAction::Finish);
    assert_eq!(poll.outcome(), Some(Err(ErrorKind::MemoryReadFailed)));
}

#[test]
fn a_poll_that_is_over_stays_over() {
    let mut poll = SlotPoll::new(RemoteAddress(8), RetryPolicy::standard());
    poll.step(PollEvent::Value(0x5000));
    for event in [PollEvent::Value(0), PollEvent::Value(9), PollEvent::ReadFailed, PollEvent::Slept] {
        assert_eq!(poll.step(event), PollAction::Finish);
        assert_eq!(poll.outcome(), Some(Ok(RemoteAddress(0x5000))));
    }
}

#[test]
fn a_poll_ignores_what_it_did_not_ask_for() {
    let mut poll = SlotPoll::new(RemoteAddress(8), RetryPolicy::standard());
    assert_eq!(poll.step(PollEvent::Slept), PollAction::Read(RemoteAddress(8)));
    poll.step(PollEvent::Value(0));
    assert_eq!(poll.step(PollEvent::Value(7)), PollAction::Sleep(200));
    assert_eq!(poll.step(PollEvent::ReadFailed), PollAction::Sleep(200));
    assert_eq!(poll.state, PollState::Sleeping);
}

#[test]
fn a_wait_sleeps_before_it_looks() {
    let wait = ModuleWait::new(RetryPolicy::standard());
    assert_eq!(wait.state, WaitState::Sleeping);
    assert_eq!(wait.action(), WaitAction::Sleep(200));
    assert_eq!(wait.outcome(), None);
}

#[test]
fn a_wait_goes_on_when_the_module_is_captured() {
    let mut wait = ModuleWait::new(RetryPolicy::standard());
    assert_eq!(wait.step(WaitEvent::Slept), WaitAction::Lookup);
    assert_eq!(wait.step(WaitEvent::Captured), WaitAction::Proceed);
    assert_eq!(wait.state, WaitState::Found);
    assert_eq!(wait.outcome(), Some(Ok(())));
    assert_eq!(wait.step(WaitEvent::Alive(false)), WaitAction::Proceed);
}

#[test]
fn a_wait_tries_again_while_the_process_runs() {
    let mut wait = ModuleWait::new(RetryPolicy::standard());
    for error in [ErrorKind::ModuleNotFound, ErrorKind::MemoryReadFailed] {
        assert_eq!(wait.step(WaitEvent::Slept), WaitAction::Lookup);
        assert_eq!(wait.step(WaitEvent::Missing(error)), WaitAction::CheckAlive);
        assert_eq!(wait.step(WaitEvent::Alive(true)), WaitAction::Sleep(200));
    }
    assert_eq!(wait.step(WaitEvent::Slept), WaitAction::Lookup);
    assert_eq!(wait.step(WaitEvent::Captured), WaitAction::Proceed);
}

#[test]
fn a_wait_gives_up_when_the_process_has_ended() {
    let mut wait = ModuleWait::new(RetryPolicy::standard());
    wait.step(WaitEvent::Slept);
    wait.step(WaitEvent::Missing(ErrorKind::ModuleNotFound));
    assert_eq!(wait.step(WaitEvent::Alive(false)), WaitAction::Exit);
    assert_eq!(wait.state, WaitState::Exited);
    assert_eq!(wait.outcome(), Some(Err(ErrorKind::ProcessExited)));
    for event in [WaitEvent::Slept, WaitEvent::Captured, WaitEvent::Alive(true)] {
        assert_eq!(wait.step(event), WaitAction::Exit);
    }
}

#[test]
fn a_wait_ignores_what_it_did_not_ask_for() {
    let mut wait = ModuleWait::new(RetryPolicy::standard());
    assert_eq!(wait.step(WaitEvent::Captured), WaitAction::Sleep(200));
    assert_eq!(wait.step(WaitEvent::Alive(false)), WaitAction::Sleep(200));
    wait.step(WaitEvent::Slept);
    assert_eq!(wait.step(WaitEvent::Slept), WaitAction::Lookup);
    assert_eq!(wait.step(WaitEvent::Alive(false)), WaitAction::Lookup);
}
