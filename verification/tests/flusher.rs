use engine_metrics::flusher::{
    after_wait, Action, Event, MetricsFlusher, StartError, State, WaitOutcome, WorkerStep,
    DEFAULT_FLUSER_INTERVAL,
};

#[test]
fn test_metrics_flusher() {
    let mut metrics_flusher = MetricsFlusher::new(100);
    assert_eq!(metrics_flusher.interval(), 100);
    assert_eq!(metrics_flusher.start(), Ok(()));
    assert_eq!(metrics_flusher.state(), State::Running);

    // Within 300 milliseconds the wait for the stop signal times out three
    // times, and each time the background unit performs a pass.
    let mut passes = 0;
    for _ in 0..(300 / metrics_flusher.interval()) {
        match after_wait(WaitOutcome::TimedOut) {
            WorkerStep::Flush => passes += 1,
            WorkerStep::Exit => panic!("a wait that timed out leads to a pass"),
        }
    }
    assert_eq!(passes, 3);

    assert!(metrics_flusher.stop());
    assert_eq!(after_wait(WaitOutcome::Disconnected), WorkerStep::Exit);
    assert_eq!(metrics_flusher.state(), State::Stopped);
}

#[test]
fn default_interval_is_ten_seconds() {
    assert_eq!(DEFAULT_FLUSER_INTERVAL, 10_000);
    assert_eq!(MetricsFlusher::new(DEFAULT_FLUSER_INTERVAL).interval(), 10_000);
}

#[test]
fn new_flusher_is_idle() {
    let flusher = MetricsFlusher::new(250);
    assert_eq!(flusher.state(), State::Idle);
    assert_eq!(flusher.interval(), 250);
}

#[test]
fn start_moves_idle_to_running() {
    let mut flusher = MetricsFlusher::new(10);
    assert_eq!(flusher.start(), Ok(()));
    assert_eq!(flusher.state(), State::Running);
    assert_eq!(flusher.interval(), 10);
}

#[test]
fn start_is_refused_while_running() {
    let mut flusher = MetricsFlusher::new(10);
    flusher.start().unwrap();
    assert_eq!(flusher.start(), Err(StartError::NotIdle));
    assert_eq!(flusher.state(), State::Running);
}

#[test]
fn stopped_flusher_cannot_be_restarted() {
    let mut flusher = MetricsFlusher::new(10);
    flusher.start().unwrap();
    assert!(flusher.stop());
    assert_eq!(flusher.start(), Err(StartError::NotIdle));
    assert_eq!(flusher.state(), State::Stopped);
    assert_eq!(flusher.handle(Event::Start), Action::Refuse);
    assert_eq!(flusher.handle(Event::SpawnFailed), Action::Nothing);
    assert_eq!(flusher.state(), State::Stopped);
}

#[test]
fn failed_spawn_leaves_the_flusher_idle() {
    let mut flusher = MetricsFlusher::new(10);
    assert_eq!(flusher.start(), Ok(()));
    assert_eq!(flusher.spawn_failed(), StartError::SpawnFailed);
    assert_eq!(flusher.state(), State::Idle);
    assert!(!flusher.stop());
    assert_eq!(flusher.state(), State::Idle);
    assert_eq!(flusher.start(), Ok(()));
    assert_eq!(flusher.state(), State::Running);
}

#[test]
fn stop_on_idle_flusher_does_nothing() {
    let mut flusher = MetricsFlusher::new(10);
    assert!(!flusher.stop());
    assert_eq!(flusher.state(), State::Idle);
    assert_eq!(flusher.start(), Ok(()));
}

#[test]
fn stop_is_idempotent() {
    let mut flusher = MetricsFlusher::new(10);
    flusher.start().unwrap();
    assert!(flusher.stop());
    assert_eq!(flusher.state(), State::Stopped);
    for _ in 0..5 {
        assert!(!flusher.stop());
        assert_eq!(flusher.state(), State::Stopped);
    }
}

#[test]
fn stop_signal_is_asked_for_once() {
    let events = [
        Event::Stop,
        Event::Start,
        Event::Start,
        Event::Stop,
        Event::Stop,
        Event::Start,
        Event::SpawnFailed,
        Event::Stop,
    ];
    let mut flusher = MetricsFlusher::new(10);
    let actions: Vec<Action> = events.iter().map(|e| flusher.handle(*e)).collect();
    assert_eq!(
        actions,
        vec![
            Action::Nothing,
            Action::Spawn,
            Action::Refuse,
            Action::SignalAndJoin,
            Action::Nothing,
            Action::Refuse,
            Action::Nothing,
            Action::Nothing,
        ]
    );
    assert_eq!(actions.iter().filter(|a| **a == Action::SignalAndJoin).count(), 1);
    assert_eq!(actions.iter().filter(|a| **a == Action::Spawn).count(), 1);
    assert_eq!(flusher.state(), State::Stopped);
}

#[test]
fn handle_follows_the_lifecycle() {
    let mut flusher = MetricsFlusher::new(10);
    assert_eq!(flusher.handle(Event::SpawnFailed), Action::Nothing);
    assert_eq!(flusher.state(), State::Idle);
    assert_eq!(flusher.handle(Event::Start), Action::Spawn);
    assert_eq!(flusher.state(), State::Running);
    assert_eq!(flusher.handle(Event::SpawnFailed), Action::Nothing);
    assert_eq!(flusher.state(), State::Idle);
    assert_eq!(flusher.handle(Event::Start), Action::Spawn);
    assert_eq!(flusher.handle(Event::Stop), Action::SignalAndJoin);
    assert_eq!(flusher.state(), State::Stopped);
    assert_eq!(flusher.interval(), 10);
}

#[test]
fn background_unit_flushes_only_after_a_timeout() {
    assert_eq!(after_wait(WaitOutcome::TimedOut), WorkerStep::Flush);
    assert_eq!(after_wait(WaitOutcome::Signalled), WorkerStep::Exit);
    assert_eq!(after_wait(WaitOutcome::Disconnected), WorkerStep::Exit);
}

#[test]
fn no_pass_after_the_stop_signal() {
    let waits = [
        WaitOutcome::TimedOut,
        WaitOutcome::TimedOut,
        WaitOutcome::Signalled,
        WaitOutcome::TimedOut,
    ];
    let mut passes = 0;
    for wait in waits {
        match after_wait(wait) {
            WorkerStep::Flush => passes += 1,
            WorkerStep::Exit => break,
        }
    }
    assert_eq!(passes, 2);
}
