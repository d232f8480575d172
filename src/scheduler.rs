use vstd::prelude::*;

verus! {

/// What the scheduler loop can be woken by.
#[derive(Clone, Copy, Debug, PartialEq, Eq, Structural)]
pub enum SchedulerEvent {
    /// The fixed-interval timer elapsed.
    Tick,
    /// An operator asked for a run now.
    RunNow,
    /// The owner asked the scheduler to stop, or the trigger channel closed.
    Shutdown,
    /// The attestation run that was started has completed, well or not.
    RunFinished,
}

/// A message on the scheduler's trigger channel.
#[derive(Clone, Copy, Debug, PartialEq, Eq, Structural)]
pub enum BackgroundTaskMsg {
    RunNow,
    Shutdown,
}

/// The event that a message drawn from the trigger channel stands for; a
/// closed channel (`None`) stands for a shutdown.
pub fn event_of(msg: Option<BackgroundTaskMsg>) -> (r: SchedulerEvent)
    ensures
        r == (if msg == Some(BackgroundTaskMsg::RunNow) {
            SchedulerEvent::RunNow
        } else {
            SchedulerEvent::Shutdown
        }),
{
    match msg {
        Some(BackgroundTaskMsg::RunNow) => SchedulerEvent::RunNow,
        _ => SchedulerEvent::Shutdown,
    }
}

/// What the loop must do after an event.
#[derive(Clone, Copy, Debug, PartialEq, Eq, Structural)]
pub enum SchedulerAction {
    /// Start one attestation run and report `RunFinished` when it completes.
    StartRun,
    /// Wait for the next event.
    Wait,
    /// Leave the loop and signal completion to the owner.
    Exit,
}

#[derive(Clone, Copy, Debug, PartialEq, Eq, Structural)]
pub enum SchedulerState {
    /// Waiting for the next event, no run in flight.
    Idle,
    /// One run in flight.
    Running,
    /// One run in flight, and a shutdown asked for: exit once it completes.
    Draining,
    /// The loop has exited.
    Stopped,
}

/// The number of attestation runs in flight in a state.
pub open spec fn in_flight(s: SchedulerState) -> nat {
    match s {
        SchedulerState::Running | SchedulerState::Draining => 1,
        _ => 0,
    }
}

/// The scheduler's decision on an event: the next state and the action.
pub open spec fn transition(s: SchedulerState, e: SchedulerEvent) -> (SchedulerState, SchedulerAction) {
    match s {
        SchedulerState::Idle => match e {
            SchedulerEvent::Tick | SchedulerEvent::RunNow => (SchedulerState::Running, SchedulerAction::StartRun),
            SchedulerEvent::Shutdown => (SchedulerState::Stopped, SchedulerAction::Exit),
            SchedulerEvent::RunFinished => (SchedulerState::Idle, SchedulerAction::Wait),
        },
        SchedulerState::Running => match e {
            SchedulerEvent::RunFinished => (SchedulerState::Idle, SchedulerAction::Wait),
            SchedulerEvent::Shutdown => (SchedulerState::Draining, SchedulerAction::Wait),
            _ => (SchedulerState::Running, SchedulerAction::Wait),
        },
        SchedulerState::Draining => match e {
            SchedulerEvent::RunFinished => (SchedulerState::Stopped, SchedulerAction::Exit),
            _ => (SchedulerState::Draining, SchedulerAction::Wait),
        },
        SchedulerState::Stopped => (SchedulerState::Stopped, SchedulerAction::Exit),
    }
}

/// The state after a sequence of events.
pub open spec fn state_after(s: SchedulerState, events: Seq<SchedulerEvent>) -> SchedulerState
    decreases events.len(),
{
    if events.len() == 0 {
        s
    } else {
        state_after(transition(s, events[0]).0, events.subrange(1, events.len() as int))
    }
}

/// How many runs a sequence of events starts.
pub open spec fn runs_started(s: SchedulerState, events: Seq<SchedulerEvent>) -> nat
    decreases events.len(),
{
    if events.len() == 0 {
        0
    } else {
        let (next, action) = transition(s, events[0]);
        (if action == SchedulerAction::StartRun { 1nat } else { 0nat }) + runs_started(
            next,
            events.subrange(1, events.len() as int),
        )
    }
}

/// How many runs complete during a sequence of events.
pub open spec fn runs_completed(s: SchedulerState, events: Seq<SchedulerEvent>) -> nat
    decreases events.len(),
{
    if events.len() == 0 {
        0
    } else {
        let next = transition(s, events[0]).0;
        (if events[0] == SchedulerEvent::RunFinished && in_flight(s) == 1 { 1nat } else { 0nat })
            + runs_completed(next, events.subrange(1, events.len() as int))
    }
}

/// At most one run is ever in flight: a run is started only when none is, and
/// along any sequence of events every run started is either completed or is the
/// single one still in flight.
pub proof fn lemma_single_run_in_flight(s: SchedulerState, events: Seq<SchedulerEvent>)
    ensures
        in_flight(state_after(s, events)) <= 1,
        forall|e: SchedulerEvent| #[trigger] transition(s, e).1 == SchedulerAction::StartRun ==> in_flight(s) == 0
            && in_flight(transition(s, e).0) == 1,
        in_flight(s) + runs_started(s, events) == runs_completed(s, events) + in_flight(state_after(s, events)),
    decreases events.len(),
{
    if events.len() > 0 {
        lemma_single_run_in_flight(transition(s, events[0]).0, events.subrange(1, events.len() as int));
    }
}

/// Once a shutdown is asked for, no run is started any more.
pub proof fn lemma_no_run_after_shutdown(s: SchedulerState, events: Seq<SchedulerEvent>)
    requires
        s == SchedulerState::Draining || s == SchedulerState::Stopped || (events.len() > 0
            && events[0] == SchedulerEvent::Shutdown),
    ensures
        runs_started(s, events) == 0,
    decreases events.len(),
{
    if events.len() > 0 {
        let next = transition(s, events[0]).0;
        assert(next == SchedulerState::Draining || next == SchedulerState::Stopped);
        lemma_no_run_after_shutdown(next, events.subrange(1, events.len() as int));
    }
}

/// The decision loop of the attestation scheduler. The loop that owns it draws
/// one event at a time and performs the action returned.
pub struct Scheduler {
    state: SchedulerState,
}

impl View for Scheduler {
    type V = SchedulerState;

    closed spec fn view(&self) -> SchedulerState {
        self.state
    }
}

impl Scheduler {
    /// A scheduler waiting for its first event.
    pub fn new() -> (r: Scheduler)
        ensures
            r@ == SchedulerState::Idle,
    {
        Scheduler { state: SchedulerState::Idle }
    }

    pub fn state(&self) -> (r: SchedulerState)
        ensures
            r == self@,
    {
        self.state
    }

    /// Takes one event and says what to do next.
    pub fn on_event(&mut self, event: SchedulerEvent) -> (r: SchedulerAction)
        ensures
            (final(self)@, r) == transition(old(self)@, event),
    {
        let (next, action) = match self.state {
            SchedulerState::Idle => match event {
                SchedulerEvent::Tick | SchedulerEvent::RunNow => (SchedulerState::Running, SchedulerAction::StartRun),
                SchedulerEvent::Shutdown => (SchedulerState::Stopped, SchedulerAction::Exit),
                SchedulerEvent::RunFinished => (SchedulerState::Idle, SchedulerAction::Wait),
            },
            SchedulerState::Running => match event {
                SchedulerEvent::RunFinished => (SchedulerState::Idle, SchedulerAction::Wait),
                SchedulerEvent::Shutdown => (SchedulerState::Draining, SchedulerAction::Wait),
                _ => (SchedulerState::Running, SchedulerAction::Wait),
            },
            SchedulerState::Draining => match event {
                SchedulerEvent::RunFinished => (SchedulerState::Stopped, SchedulerAction::Exit),
                _ => (SchedulerState::Draining, SchedulerAction::Wait),
            },
            SchedulerState::Stopped => (SchedulerState::Stopped, SchedulerAction::Exit),
        };
        self.state = next;
        action
    }

    /// Whether the loop has exited.
    pub fn is_stopped(&self) -> (r: bool)
        ensures
            r == (self@ == SchedulerState::Stopped),
    {
        self.state == SchedulerState::Stopped
    }
}

} // verus!
