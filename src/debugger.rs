//! The single-step gate: an optional pause before each fetch, driven by
//! signals from outside the machine.

use vstd::prelude::*;

verus! {

/// What the operator asks for while single-stepping.
#[derive(Clone, Copy, Debug, PartialEq, Eq, Structural)]
pub enum GateSignal {
    /// Execute one instruction and pause again.
    Step,
    /// Stop the run.
    Quit,
    /// Execute and stop pausing.
    Resume,
}

/// What the run loop does after a signal.
#[derive(Clone, Copy, Debug, PartialEq, Eq, Structural)]
pub enum GateAction {
    /// Go on to the next fetch.
    Proceed,
    /// End the run.
    Abort,
}

/// Whether execution pauses before each fetch.
pub struct DebugGate {
    pub active: bool,
}

/// The action that signal `s` calls for.
pub open spec fn action_for(s: GateSignal) -> GateAction {
    match s {
        GateSignal::Quit => GateAction::Abort,
        _ => GateAction::Proceed,
    }
}

/// Whether execution still pauses after signal `s`.
pub open spec fn active_after(active: bool, s: GateSignal) -> bool {
    match s {
        GateSignal::Resume => false,
        _ => active,
    }
}

impl DebugGate {
    /// A gate that pauses before each fetch when `active`.
    pub fn new(active: bool) -> (g: DebugGate)
        ensures
            g.active == active,
    {
        DebugGate { active }
    }

    /// Whether the run loop must wait for a signal before the next fetch.
    pub fn must_wait(&self) -> (w: bool)
        ensures
            w == self.active,
    {
        self.active
    }

    /// Takes signal `s`: a step proceeds and keeps pausing, a resume
    /// proceeds and stops pausing, a quit ends the run.
    pub fn on_signal(&mut self, s: GateSignal) -> (a: GateAction)
        ensures
            a == action_for(s),
            final(self).active == active_after(old(self).active, s),
    {
        match s {
            GateSignal::Step => GateAction::Proceed,
            GateSignal::Quit => GateAction::Abort,
            GateSignal::Resume => {
                self.active = false;
                GateAction::Proceed
            },
        }
    }
}

} // verus!
