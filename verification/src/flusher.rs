//! The flusher's lifecycle, and what its background unit does after each
//! wait.
//!
//! The flusher owns one background unit. The unit waits for a stop signal for
//! at most one interval; when the wait times out it performs one pass and
//! waits again, and when the signal arrives first it exits without a further
//! pass. Spawning, waiting and joining are the caller's work: the types here
//! decide what is to be done and keep track of the lifecycle.

use vstd::prelude::*;

verus! {

/// The interval between two passes where none is configured, in
/// milliseconds.
pub const DEFAULT_FLUSER_INTERVAL: u64 = 10000;

/// Where a flusher is in its life.
#[derive(Clone, Copy, Debug, PartialEq, Eq, Hash, Structural)]
pub enum State {
    /// Constructed, and no background unit is running.
    Idle,
    /// The background unit is running.
    Running,
    /// The background unit was told to stop. A stopped flusher cannot be
    /// started again.
    Stopped,
}

/// What happens to a flusher.
#[derive(Clone, Copy, Debug, PartialEq, Eq, Hash, Structural)]
pub enum Event {
    /// The owner asks for the background unit to be started.
    Start,
    /// The background unit that was asked for could not be spawned.
    SpawnFailed,
    /// The owner asks for the background unit to be stopped.
    Stop,
}

/// What the caller has to do after an event.
#[derive(Clone, Copy, Debug, PartialEq, Eq, Hash, Structural)]
pub enum Action {
    /// Spawn the background unit.
    Spawn,
    /// Send the stop signal, then wait until the background unit has exited.
    SignalAndJoin,
    /// Refuse the request: the flusher is not idle.
    Refuse,
    /// Nothing.
    Nothing,
}

/// Why a flusher did not start.
#[derive(Clone, Copy, Debug, PartialEq, Eq, Hash, Structural)]
pub enum StartError {
    /// The background unit could not be spawned. The flusher is idle again.
    SpawnFailed,
    /// The flusher is running or stopped, and starts only once.
    NotIdle,
}

/// The lifecycle: the state after an event, and what the caller has to do.
pub open spec fn step(state: State, event: Event) -> (State, Action) {
    match (state, event) {
        (State::Idle, Event::Start) => (State::Running, Action::Spawn),
        (_, Event::Start) => (state, Action::Refuse),
        (State::Running, Event::SpawnFailed) => (State::Idle, Action::Nothing),
        (_, Event::SpawnFailed) => (state, Action::Nothing),
        (State::Running, Event::Stop) => (State::Stopped, Action::SignalAndJoin),
        (_, Event::Stop) => (state, Action::Nothing),
    }
}

/// The lifecycle of a periodic flusher of engine metrics.
#[derive(Debug)]
pub struct MetricsFlusher {
    state: State,
    interval: u64,
}

impl MetricsFlusher {
    /// Where the flusher is in its life.
    pub closed spec fn spec_state(&self) -> State {
        self.state
    }

    /// The time between two passes, in milliseconds.
    pub closed spec fn spec_interval(&self) -> u64 {
        self.interval
    }

    /// An idle flusher that will perform a pass every `interval`
    /// milliseconds once it is started.
    pub fn new(interval: u64) -> (flusher: MetricsFlusher)
        ensures
            flusher.spec_state() == State::Idle,
            flusher.spec_interval() == interval,
    {
        MetricsFlusher { state: State::Idle, interval }
    }

    /// Where the flusher is in its life.
    #[verifier::when_used_as_spec(spec_state)]
    pub fn state(&self) -> (state: State)
        ensures
            state == self.spec_state(),
    {
        self.state
    }

    /// The time between two passes, in milliseconds.
    #[verifier::when_used_as_spec(spec_interval)]
    pub fn interval(&self) -> (interval: u64)
        ensures
            interval == self.spec_interval(),
    {
        self.interval
    }

    /// Takes the flusher through one event and says what the caller has to do.
    pub fn handle(&mut self, event: Event) -> (action: Action)
        ensures
            (final(self).spec_state(), action) == step(old(self).spec_state(), event),
            final(self).spec_interval() == old(self).spec_interval(),
    {
        let (state, action) = match (self.state, event) {
            (State::Idle, Event::Start) => (State::Running, Action::Spawn),
            (state, Event::Start) => (state, Action::Refuse),
            (State::Running, Event::SpawnFailed) => (State::Idle, Action::Nothing),
            (state, Event::SpawnFailed) => (state, Action::Nothing),
            (State::Running, Event::Stop) => (State::Stopped, Action::SignalAndJoin),
            (state, Event::Stop) => (state, Action::Nothing),
        };
        self.state = state;
        action
    }

    /// Starts an idle flusher: on `Ok` the flusher is running and the caller
    /// spawns the background unit, and reports with `spawn_failed` if it
    /// could not. A flusher that is running or stopped refuses and stays as
    /// it is.
    pub fn start(&mut self) -> (result: Result<(), StartError>)
        ensures
            final(self).spec_state() == step(old(self).spec_state(), Event::Start).0,
            final(self).spec_interval() == old(self).spec_interval(),
            result is Ok <==> old(self).spec_state() == State::Idle,
            result is Err ==> result == Err::<(), StartError>(StartError::NotIdle),
    {
        match self.handle(Event::Start) {
            Action::Spawn => Ok(()),
            _ => Err(StartError::NotIdle),
        }
    }

    /// Takes back a start whose background unit could not be spawned: the
    /// flusher is idle again. Returns the error for the caller of the start.
    pub fn spawn_failed(&mut self) -> (error: StartError)
        ensures
            final(self).spec_state() == step(old(self).spec_state(), Event::SpawnFailed).0,
            final(self).spec_interval() == old(self).spec_interval(),
            error == StartError::SpawnFailed,
    {
        self.handle(Event::SpawnFailed);
        StartError::SpawnFailed
    }

    /// Stops a running flusher: on `true` the flusher is stopped and the
    /// caller sends the stop signal and waits for the background unit to
    /// exit. The flusher is stopped from then on, however the background
    /// unit ends. On a flusher that is idle or stopped it changes nothing
    /// and returns `false`.
    pub fn stop(&mut self) -> (join: bool)
        ensures
            final(self).spec_state() == step(old(self).spec_state(), Event::Stop).0,
            final(self).spec_interval() == old(self).spec_interval(),
            join <==> old(self).spec_state() == State::Running,
    {
        match self.handle(Event::Stop) {
            Action::SignalAndJoin => true,
            _ => false,
        }
    }
}

/// How a wait of the background unit ended.
#[derive(Clone, Copy, Debug, PartialEq, Eq, Hash, Structural)]
pub enum WaitOutcome {
    /// The interval passed and no stop signal arrived.
    TimedOut,
    /// The stop signal arrived.
    Signalled,
    /// The owner's end of the signal is gone.
    Disconnected,
}

/// What the background unit does after a wait.
#[derive(Clone, Copy, Debug, PartialEq, Eq, Hash, Structural)]
pub enum WorkerStep {
    /// Perform one pass, then wait again.
    Flush,
    /// Leave the loop without a further pass.
    Exit,
}

/// The background unit performs a pass after a wait that timed out, and
/// exits after any other.
pub open spec fn spec_after_wait(outcome: WaitOutcome) -> WorkerStep {
    match outcome {
        WaitOutcome::TimedOut => WorkerStep::Flush,
        _ => WorkerStep::Exit,
    }
}

/// The background unit performs a pass after a wait that timed out, and
/// exits after any other.
#[verifier::when_used_as_spec(spec_after_wait)]
pub fn after_wait(outcome: WaitOutcome) -> (next: WorkerStep)
    ensures
        next == spec_after_wait(outcome),
{
    match outcome {
        WaitOutcome::TimedOut => WorkerStep::Flush,
        WaitOutcome::Signalled | WaitOutcome::Disconnected => WorkerStep::Exit,
    }
}

/// The state of a flusher after a sequence of events, first to last.
pub open spec fn run(state: State, events: Seq<Event>) -> State
    decreases events.len(),
{
    if events.len() == 0 {
        state
    } else {
        run(step(state, events.first()).0, events.drop_first())
    }
}

/// How often the caller is told to do `action` over a sequence of events.
pub open spec fn times(state: State, events: Seq<Event>, action: Action) -> nat
    decreases events.len(),
{
    if events.len() == 0 {
        0
    } else {
        let (next, told) = step(state, events.first());
        let later = times(next, events.drop_first(), action);
        if told == action {
            later + 1
        } else {
            later
        }
    }
}

/// The number of passes that the background unit performs over a sequence of
/// waits: one after each wait, up to the first wait that did not time out.
pub open spec fn passes(outcomes: Seq<WaitOutcome>) -> nat
    decreases outcomes.len(),
{
    if outcomes.len() == 0 {
        0
    } else {
        match spec_after_wait(outcomes.first()) {
            WorkerStep::Flush => 1 + passes(outcomes.drop_first()),
            WorkerStep::Exit => 0,
        }
    }
}

/// A stopped flusher stays stopped, whatever happens to it, and is never
/// told to spawn or to signal again.
pub proof fn lemma_stopped_is_final(events: Seq<Event>)
    ensures
        run(State::Stopped, events) == State::Stopped,
        times(State::Stopped, events, Action::Spawn) == 0,
        times(State::Stopped, events, Action::SignalAndJoin) == 0,
    decreases events.len(),
{
    if events.len() > 0 {
        lemma_stopped_is_final(events.drop_first());
    }
}

/// Stopping is idempotent: after a stop the flusher is not running, and a
/// second stop changes nothing and asks nothing of the caller.
pub proof fn lemma_stop_is_idempotent(state: State)
    ensures
        step(state, Event::Stop).0 != State::Running,
        step(step(state, Event::Stop).0, Event::Stop) == (
            step(state, Event::Stop).0,
            Action::Nothing,
        ),
{
}

/// Whatever happens to a flusher, the caller is told at most once to send
/// the stop signal and to wait for the background unit.
pub proof fn lemma_signals_at_most_once(state: State, events: Seq<Event>)
    ensures
        times(state, events, Action::SignalAndJoin) <= 1,
    decreases events.len(),
{
    if events.len() > 0 {
        let (next, told) = step(state, events.first());
        if told == Action::SignalAndJoin {
            lemma_stopped_is_final(events.drop_first());
        } else {
            lemma_signals_at_most_once(next, events.drop_first());
        }
    }
}

/// Whatever happens to a flusher, the caller is told to spawn a background
/// unit only while none is running: two starts with no failed spawn between
/// them give one unit, not two.
pub proof fn lemma_spawns_only_when_idle(state: State, event: Event)
    ensures
        step(state, event).1 == Action::Spawn <==> state == State::Idle && event == Event::Start,
        step(state, event).1 == Action::SignalAndJoin <==> state == State::Running && event
            == Event::Stop,
{
}

/// The background unit performs no pass after a wait that did not time out:
/// where the wait at `k` ended with the stop signal, at most `k` passes are
/// performed, however the later waits end.
pub proof fn lemma_no_pass_after_stop(outcomes: Seq<WaitOutcome>, k: int)
    requires
        0 <= k < outcomes.len(),
        outcomes[k] != WaitOutcome::TimedOut,
    ensures
        passes(outcomes) <= k,
    decreases outcomes.len(),
{
    if k > 0 && outcomes.first() == WaitOutcome::TimedOut {
        assert(outcomes.drop_first()[k - 1] == outcomes[k]);
        lemma_no_pass_after_stop(outcomes.drop_first(), k - 1);
    }
}

/// The background unit performs a pass after every wait that timed out
/// before any stop signal: where the first `k` waits timed out, at least `k`
/// passes are performed.
pub proof fn lemma_pass_after_each_timeout(outcomes: Seq<WaitOutcome>, k: int)
    requires
        0 <= k <= outcomes.len(),
        forall|i: int| 0 <= i < k ==> outcomes[i] == WaitOutcome::TimedOut,
    ensures
        passes(outcomes) >= k,
    decreases outcomes.len(),
{
    if k > 0 {
        assert(outcomes[0] == WaitOutcome::TimedOut);
        assert forall|i: int| 0 <= i < k - 1 implies outcomes.drop_first()[i]
            == WaitOutcome::TimedOut by {
            assert(outcomes.drop_first()[i] == outcomes[i + 1]);
        }
        lemma_pass_after_each_timeout(outcomes.drop_first(), k - 1);
    }
}

} // verus!
