//! The decisions of an operator that keeps cycling the service: bind, start,
//! hold it up for a while, stop, and again, until a bind or a start fails.
use vstd::prelude::*;

use crate::manager::{after, start_accepted, Command};

verus! {

/// How long each instance is held up, in seconds, unless told otherwise.
pub const DEFAULT_ACTIVE_SECS: u64 = 15;

/// The step of the cycle that the driver waits on.
#[derive(Debug, Clone, Copy, PartialEq, Eq, Structural)]
pub enum DriverPhase {
    Binding,
    Starting,
    Holding,
    Stopping,
    Terminated,
}

/// What became of the step that was last asked for.
#[derive(Debug, Clone, Copy, PartialEq, Eq, Structural)]
pub enum DriverEvent {
    Bound,
    BindFailed,
    Started,
    StartFailed,
    HoldElapsed,
    Stopped,
}

/// The step to perform next.
#[derive(Debug, Clone, Copy, PartialEq, Eq, Structural)]
pub enum DriverAction {
    /// Acquire a fresh listening address.
    Bind,
    /// Start the manager on it.
    Start,
    /// Keep the instance up for this many seconds.
    Hold(u64),
    /// Stop the manager and wait until the instance has shut down.
    Stop,
    /// Give up: a bind or a start failed, and its error ends the driver.
    Terminate,
}

/// The phase that follows an event. Bind and start failures are fatal; a stop
/// always succeeds; an event that does not belong to the phase changes nothing.
pub open spec fn next_phase(p: DriverPhase, e: DriverEvent) -> DriverPhase {
    match (p, e) {
        (DriverPhase::Binding, DriverEvent::Bound) => DriverPhase::Starting,
        (DriverPhase::Binding, DriverEvent::BindFailed) => DriverPhase::Terminated,
        (DriverPhase::Starting, DriverEvent::Started) => DriverPhase::Holding,
        (DriverPhase::Starting, DriverEvent::StartFailed) => DriverPhase::Terminated,
        (DriverPhase::Holding, DriverEvent::HoldElapsed) => DriverPhase::Stopping,
        (DriverPhase::Stopping, DriverEvent::Stopped) => DriverPhase::Binding,
        _ => p,
    }
}

/// The action that a phase asks for.
pub open spec fn action_of(p: DriverPhase, active_secs: u64) -> DriverAction {
    match p {
        DriverPhase::Binding => DriverAction::Bind,
        DriverPhase::Starting => DriverAction::Start,
        DriverPhase::Holding => DriverAction::Hold(active_secs),
        DriverPhase::Stopping => DriverAction::Stop,
        DriverPhase::Terminated => DriverAction::Terminate,
    }
}

/// The phase after a sequence of events.
pub open spec fn phase_after(p: DriverPhase, events: Seq<DriverEvent>) -> DriverPhase
    decreases events.len(),
{
    if events.len() == 0 {
        p
    } else {
        phase_after(next_phase(p, events[0]), events.drop_first())
    }
}

/// Cycles a manager: one step at a time, one cycle at a time.
#[derive(Debug)]
pub struct RestartDriver {
    active_secs: u64,
    phase: DriverPhase,
}

impl RestartDriver {
    /// The step of the cycle that the driver waits on.
    pub closed spec fn phase(&self) -> DriverPhase {
        self.phase
    }

    /// How long each instance is held up.
    pub closed spec fn active_secs(&self) -> u64 {
        self.active_secs
    }

    /// A driver about to bind its first instance.
    pub fn new(active_secs: u64) -> (r: Self)
        ensures
            r.phase() == DriverPhase::Binding,
            r.active_secs() == active_secs,
    {
        RestartDriver { active_secs, phase: DriverPhase::Binding }
    }

    /// The step to perform now.
    pub fn action(&self) -> (r: DriverAction)
        ensures
            r == action_of(self.phase(), self.active_secs()),
    {
        match self.phase {
            DriverPhase::Binding => DriverAction::Bind,
            DriverPhase::Starting => DriverAction::Start,
            DriverPhase::Holding => DriverAction::Hold(self.active_secs),
            DriverPhase::Stopping => DriverAction::Stop,
            DriverPhase::Terminated => DriverAction::Terminate,
        }
    }

    /// Takes in what became of the last step and returns the next one.
    pub fn on_event(&mut self, e: DriverEvent) -> (r: DriverAction)
        ensures
            final(self).phase() == next_phase(old(self).phase(), e),
            final(self).active_secs() == old(self).active_secs(),
            r == action_of(final(self).phase(), final(self).active_secs()),
    {
        let p = match (self.phase, e) {
            (DriverPhase::Binding, DriverEvent::Bound) => DriverPhase::Starting,
            (DriverPhase::Binding, DriverEvent::BindFailed) => DriverPhase::Terminated,
            (DriverPhase::Starting, DriverEvent::Started) => DriverPhase::Holding,
            (DriverPhase::Starting, DriverEvent::StartFailed) => DriverPhase::Terminated,
            (DriverPhase::Holding, DriverEvent::HoldElapsed) => DriverPhase::Stopping,
            (DriverPhase::Stopping, DriverEvent::Stopped) => DriverPhase::Binding,
            _ => self.phase,
        };
        self.phase = p;
        self.action()
    }
}

/// A cycle whose steps all succeed brings the driver back to binding, having
/// asked for exactly one start, one hold and one stop, in that order.
pub proof fn law_full_cycle(active_secs: u64)
    ensures
        phase_after(
            DriverPhase::Binding,
            seq![DriverEvent::Bound, DriverEvent::Started, DriverEvent::HoldElapsed, DriverEvent::Stopped],
        ) == DriverPhase::Binding,
        action_of(next_phase(DriverPhase::Binding, DriverEvent::Bound), active_secs)
            == DriverAction::Start,
        action_of(next_phase(DriverPhase::Starting, DriverEvent::Started), active_secs)
            == DriverAction::Hold(active_secs),
        action_of(next_phase(DriverPhase::Holding, DriverEvent::HoldElapsed), active_secs)
            == DriverAction::Stop,
{
    let s = seq![DriverEvent::Bound, DriverEvent::Started, DriverEvent::HoldElapsed, DriverEvent::Stopped];
    assert(s.drop_first() =~= seq![DriverEvent::Started, DriverEvent::HoldElapsed, DriverEvent::Stopped]);
    assert(s.drop_first().drop_first() =~= seq![DriverEvent::HoldElapsed, DriverEvent::Stopped]);
    assert(s.drop_first().drop_first().drop_first() =~= seq![DriverEvent::Stopped]);
    assert(s.drop_first().drop_first().drop_first().drop_first() =~= Seq::<DriverEvent>::empty());
    reveal_with_fuel(phase_after, 5);
}

/// A failed bind or start is final: no later event brings the driver back.
pub proof fn law_failure_is_final(p: DriverPhase, e: DriverEvent, later: Seq<DriverEvent>)
    requires
        e == DriverEvent::BindFailed || e == DriverEvent::StartFailed,
        next_phase(p, e) == DriverPhase::Terminated,
    ensures
        phase_after(next_phase(p, e), later) == DriverPhase::Terminated,
    decreases later.len(),
{
    if later.len() > 0 {
        law_failure_is_final(p, e, later.drop_first());
    }
}

/// Whether the driven manager runs an instance while the driver is in a phase:
/// from a successful start until the stop that follows it.
pub open spec fn instance_up(p: DriverPhase) -> bool {
    p == DriverPhase::Holding || p == DriverPhase::Stopping
}

/// The command that the driver has made of its manager when an event reports
/// on it: a start that went through, or a stop.
pub open spec fn command_of(p: DriverPhase, e: DriverEvent) -> Option<Command> {
    match (p, e) {
        (DriverPhase::Starting, DriverEvent::Started) => Some(Command::Start),
        (DriverPhase::Stopping, DriverEvent::Stopped) => Some(Command::Stop),
        _ => None,
    }
}

/// The driver never runs two cycles at once: it asks for a start only of an
/// idle manager, and after each event the manager runs an instance exactly
/// when the driver's phase says one is up.
pub proof fn law_driver_serializes_cycles(p: DriverPhase, e: DriverEvent)
    ensures
        command_of(p, e) == Some(Command::Start) ==> start_accepted(instance_up(p)),
        instance_up(next_phase(p, e)) == match command_of(p, e) {
            Some(c) => after(instance_up(p), c),
            None => instance_up(p),
        },
{
}

} // verus!
