use vstd::prelude::*;

verus! {

/// Where the monitor stands in its loop.
#[derive(Debug, Clone, Copy, PartialEq, Eq)]
pub enum Phase {
    /// About to push a snapshot (push mode only).
    Push,
    /// About to check health.
    Health,
    /// About to poll metrics.
    Metrics,
    /// Idle between cycles, until the interval elapses or a signal comes.
    Waiting,
    /// Shut down for good.
    Stopped,
}

/// What the driver of the loop is to do next.
#[derive(Debug, Clone, Copy, PartialEq, Eq)]
pub enum Action {
    PostPush,
    GetHealth,
    GetMetrics,
    Wait,
    Exit,
}

/// The termination signals that end the loop.
#[derive(Debug, Clone, Copy, PartialEq, Eq)]
pub enum Signal {
    Terminate,
    Interrupt,
}

/// What happened while an action was carried out.
#[derive(Debug, Clone, Copy, PartialEq, Eq)]
pub enum Event {
    /// The request got a response, whatever its status.
    Responded,
    /// The request failed in transport (refused, timed out, no DNS).
    TransportFailed,
    /// The interval elapsed while waiting.
    TimerElapsed,
    /// A termination signal arrived while waiting.
    Signalled(Signal),
}

/// Whether an event ends a request.
pub open spec fn request_outcome(e: Event) -> bool {
    e is Responded || e is TransportFailed
}

/// The phase a cycle starts in.
pub open spec fn cycle_start(push_mode: bool) -> Phase {
    if push_mode {
        Phase::Push
    } else {
        Phase::Health
    }
}

/// The action each phase asks for.
pub open spec fn action_of(p: Phase) -> Action {
    match p {
        Phase::Push => Action::PostPush,
        Phase::Health => Action::GetHealth,
        Phase::Metrics => Action::GetMetrics,
        Phase::Waiting => Action::Wait,
        Phase::Stopped => Action::Exit,
    }
}

/// The phase after an event. A request step moves on whether the request
/// succeeded or not; signals are heeded only while waiting; nothing leaves
/// `Stopped`. An event that cannot occur in a phase leaves it unchanged.
pub open spec fn next_phase(p: Phase, push_mode: bool, e: Event) -> Phase {
    match p {
        Phase::Push => if request_outcome(e) {
            Phase::Health
        } else {
            p
        },
        Phase::Health => if request_outcome(e) {
            Phase::Metrics
        } else {
            p
        },
        Phase::Metrics => if request_outcome(e) {
            Phase::Waiting
        } else {
            p
        },
        Phase::Waiting => match e {
            Event::TimerElapsed => cycle_start(push_mode),
            Event::Signalled(_) => Phase::Stopped,
            _ => p,
        },
        Phase::Stopped => Phase::Stopped,
    }
}

/// The phase reached after a run of events.
pub open spec fn run(p: Phase, push_mode: bool, events: Seq<Event>) -> Phase
    decreases events.len(),
{
    if events.len() == 0 {
        p
    } else {
        run(next_phase(p, push_mode, events[0]), push_mode, events.drop_first())
    }
}

/// The actions asked for along a run of events: one before each event.
pub open spec fn actions(p: Phase, push_mode: bool, events: Seq<Event>) -> Seq<Action>
    decreases events.len(),
{
    if events.len() == 0 {
        Seq::empty()
    } else {
        seq![action_of(p)] + actions(next_phase(p, push_mode, events[0]), push_mode, events.drop_first())
    }
}

/// The loop controller: what to do next, and how each outcome moves it on.
#[derive(Debug, Clone, Copy, PartialEq, Eq)]
pub struct Monitor {
    pub push_mode: bool,
    pub phase: Phase,
}

impl Monitor {
    /// A monitor at the start of its first cycle.
    pub fn new(push_mode: bool) -> (r: Monitor)
        ensures
            r.push_mode == push_mode,
            r.phase == cycle_start(push_mode),
    {
        let phase = if push_mode {
            Phase::Push
        } else {
            Phase::Health
        };
        Monitor { push_mode, phase }
    }

    /// The action the current phase asks for.
    pub fn next_action(&self) -> (r: Action)
        ensures
            r == action_of(self.phase),
    {
        match self.phase {
            Phase::Push => Action::PostPush,
            Phase::Health => Action::GetHealth,
            Phase::Metrics => Action::GetMetrics,
            Phase::Waiting => Action::Wait,
            Phase::Stopped => Action::Exit,
        }
    }

    /// Moves on after an event.
    pub fn on_event(&mut self, e: Event)
        ensures
            final(self).push_mode == old(self).push_mode,
            final(self).phase == next_phase(old(self).phase, old(self).push_mode, e),
    {
        let outcome = match e {
            Event::Responded => true,
            Event::TransportFailed => true,
            _ => false,
        };
        let next = match self.phase {
            Phase::Push => if outcome {
                Phase::Health
            } else {
                Phase::Push
            },
            Phase::Health => if outcome {
                Phase::Metrics
            } else {
                Phase::Health
            },
            Phase::Metrics => if outcome {
                Phase::Waiting
            } else {
                Phase::Metrics
            },
            Phase::Waiting => match e {
                Event::TimerElapsed => if self.push_mode {
                    Phase::Push
                } else {
                    Phase::Health
                },
                Event::Signalled(_) => Phase::Stopped,
                _ => Phase::Waiting,
            },
            Phase::Stopped => Phase::Stopped,
        };
        self.phase = next;
    }

    /// Whether the loop has ended.
    pub fn is_stopped(&self) -> (r: bool)
        ensures
            r == (self.phase == Phase::Stopped),
    {
        match self.phase {
            Phase::Stopped => true,
            _ => false,
        }
    }
}

} // verus!

verus! {

/// In push mode every cycle posts exactly one snapshot, then checks health,
/// then polls metrics, and comes back to waiting, whatever each request
/// gave. Without push mode a cycle posts nothing.
pub proof fn one_push_per_cycle(e1: Event, e2: Event, e3: Event)
    requires
        request_outcome(e1),
        request_outcome(e2),
        request_outcome(e3),
    ensures
        actions(cycle_start(true), true, seq![e1, e2, e3]) == seq![
            Action::PostPush,
            Action::GetHealth,
            Action::GetMetrics,
        ],
        run(cycle_start(true), true, seq![e1, e2, e3]) == Phase::Waiting,
        actions(cycle_start(false), false, seq![e1, e2]) == seq![
            Action::GetHealth,
            Action::GetMetrics,
        ],
        run(cycle_start(false), false, seq![e1, e2]) == Phase::Waiting,
{
    reveal_with_fuel(run, 4);
    reveal_with_fuel(actions, 4);
    assert(seq![e1, e2, e3].drop_first() =~= seq![e2, e3]);
    assert(seq![e2, e3].drop_first() =~= seq![e3]);
    assert(seq![e3].drop_first() =~= Seq::<Event>::empty());
    assert(seq![e1, e2].drop_first() =~= seq![e2]);
    assert(seq![e2].drop_first() =~= Seq::<Event>::empty());
    assert(actions(cycle_start(true), true, seq![e1, e2, e3]) =~= seq![
        Action::PostPush,
        Action::GetHealth,
        Action::GetMetrics,
    ]);
    assert(actions(cycle_start(false), false, seq![e1, e2]) =~= seq![
        Action::GetHealth,
        Action::GetMetrics,
    ]);
}

/// Once stopped, the monitor stays stopped and asks for nothing but to exit,
/// whatever happens after.
pub proof fn stopped_is_final(push_mode: bool, events: Seq<Event>)
    ensures
        run(Phase::Stopped, push_mode, events) == Phase::Stopped,
        forall|i: int|
            0 <= i < events.len() ==> #[trigger] actions(Phase::Stopped, push_mode, events)[i]
                == Action::Exit,
        actions(Phase::Stopped, push_mode, events).len() == events.len(),
    decreases events.len(),
{
    if events.len() > 0 {
        stopped_is_final(push_mode, events.drop_first());
        let rest = actions(Phase::Stopped, push_mode, events.drop_first());
        assert forall|i: int| 0 <= i < events.len() implies #[trigger] actions(
            Phase::Stopped,
            push_mode,
            events,
        )[i] == Action::Exit by {
            if i > 0 {
                assert(actions(Phase::Stopped, push_mode, events)[i] == rest[i - 1]);
            }
        }
    }
}

/// A termination signal while waiting ends the loop: the monitor stops, and
/// whatever comes after, it issues no further request and only exits.
pub proof fn signal_while_waiting_ends_loop(push_mode: bool, s: Signal, later: Seq<Event>)
    ensures
        next_phase(Phase::Waiting, push_mode, Event::Signalled(s)) == Phase::Stopped,
        run(Phase::Waiting, push_mode, seq![Event::Signalled(s)] + later) == Phase::Stopped,
        forall|i: int|
            1 <= i < later.len() + 1 ==> #[trigger] actions(
                Phase::Waiting,
                push_mode,
                seq![Event::Signalled(s)] + later,
            )[i] == Action::Exit,
{
    let events = seq![Event::Signalled(s)] + later;
    assert(events.drop_first() =~= later);
    stopped_is_final(push_mode, later);
    assert forall|i: int| 1 <= i < later.len() + 1 implies #[trigger] actions(
        Phase::Waiting,
        push_mode,
        events,
    )[i] == Action::Exit by {
        assert(actions(Phase::Waiting, push_mode, events)[i] == actions(
            Phase::Stopped,
            push_mode,
            later,
        )[i - 1]);
    }
}

/// A transport failure of the health check does not keep the metrics poll
/// of the same cycle from running.
pub proof fn health_failure_still_polls_metrics(push_mode: bool, after: Event)
    requires
        request_outcome(after),
    ensures
        next_phase(Phase::Health, push_mode, Event::TransportFailed) == Phase::Metrics,
        actions(Phase::Health, push_mode, seq![Event::TransportFailed, after]) == seq![
            Action::GetHealth,
            Action::GetMetrics,
        ],
        run(Phase::Health, push_mode, seq![Event::TransportFailed, after]) == Phase::Waiting,
{
    reveal_with_fuel(run, 3);
    reveal_with_fuel(actions, 3);
    assert(seq![Event::TransportFailed, after].drop_first() =~= seq![after]);
    assert(seq![after].drop_first() =~= Seq::<Event>::empty());
    assert(actions(Phase::Health, push_mode, seq![Event::TransportFailed, after]) =~= seq![
        Action::GetHealth,
        Action::GetMetrics,
    ]);
}

} // verus!
