//! The process-wide shutdown flag: it is set once and never cleared.

use vstd::prelude::*;

verus! {

#[derive(Debug, Clone, Copy, PartialEq, Eq, Structural)]
pub enum SignalState {
    Running,
    ShuttingDown,
}

/// The state after one trigger, and whether that trigger made the switch.
pub open spec fn spec_trigger(s: SignalState) -> (SignalState, bool) {
    (SignalState::ShuttingDown, s == SignalState::Running)
}

/// How many of `n` triggers in a row, from `s`, make the switch.
pub open spec fn transitions(s: SignalState, n: nat) -> nat
    decreases n,
{
    if n == 0 {
        0
    } else {
        let (next, switched) = spec_trigger(s);
        (if switched { 1nat } else { 0nat }) + transitions(next, (n - 1) as nat)
    }
}

/// However many triggers fire, the flag switches at most once, and exactly
/// once when it was running and at least one fired.
pub proof fn lemma_switches_at_most_once(s: SignalState, n: nat)
    ensures
        transitions(s, n) <= 1,
        transitions(s, n) == 1 <==> (s == SignalState::Running && n > 0),
    decreases n,
{
    if n > 0 {
        lemma_switches_at_most_once(SignalState::ShuttingDown, (n - 1) as nat);
    }
}

/// The shutdown flag.
pub struct ShutdownSignal {
    state: SignalState,
}

impl ShutdownSignal {
    pub closed spec fn spec_state(&self) -> SignalState {
        self.state
    }

    pub fn new() -> (r: ShutdownSignal)
        ensures
            r.spec_state() == SignalState::Running,
    {
        ShutdownSignal { state: SignalState::Running }
    }

    pub fn state(&self) -> (r: SignalState)
        ensures
            r == self.spec_state(),
    {
        self.state
    }

    pub fn is_shutting_down(&self) -> (r: bool)
        ensures
            r == (self.spec_state() == SignalState::ShuttingDown),
    {
        self.state == SignalState::ShuttingDown
    }

    /// Sets the flag. Returns whether this call made the switch; every
    /// later call returns `false`.
    pub fn trigger(&mut self) -> (r: bool)
        ensures
            (final(self).spec_state(), r) == spec_trigger(old(self).spec_state()),
    {
        let switched = self.state == SignalState::Running;
        self.state = SignalState::ShuttingDown;
        switched
    }
}

} // verus!
