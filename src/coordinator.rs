//! The shutdown coordinator: it admits connections while running, and once
//! triggered stops admitting, sets the shutdown flag and waits for the
//! registry to drain or for the grace period to run out, whichever is first.

use vstd::prelude::*;
use crate::registry::{ConnectionHandle, Registry};
use crate::signal::{ShutdownSignal, SignalState};

verus! {

#[derive(Debug, Clone, Copy, PartialEq, Eq, Structural)]
pub enum CoordinatorPhase {
    /// Accepting connections.
    Running,
    /// Not accepting; waiting for live connections to finish.
    Draining,
    /// Done waiting.
    Stopped,
}

/// Why the coordinator stopped.
#[derive(Debug, Clone, Copy, PartialEq, Eq, Structural)]
pub enum StopReason {
    /// Every connection finished within the grace period.
    Drained,
    /// The grace period ran out with this many connections still live;
    /// they are abandoned.
    TimedOut(usize),
}

pub struct Coordinator {
    phase: CoordinatorPhase,
    registry: Registry,
    signal: ShutdownSignal,
    reason: Option<StopReason>,
}

impl Coordinator {
    pub closed spec fn spec_phase(&self) -> CoordinatorPhase {
        self.phase
    }

    /// The ids of the live connections.
    pub closed spec fn live(&self) -> Set<u64> {
        self.registry.live()
    }

    /// How many handles have been issued.
    pub closed spec fn issued(&self) -> nat {
        self.registry.issued()
    }

    pub closed spec fn spec_signal(&self) -> SignalState {
        self.signal.spec_state()
    }

    pub closed spec fn spec_reason(&self) -> Option<StopReason> {
        self.reason
    }

    pub closed spec fn wf(&self) -> bool {
        &&& self.registry.wf()
        &&& (self.phase == CoordinatorPhase::Running) == (self.signal.spec_state()
            == SignalState::Running)
        &&& (self.phase == CoordinatorPhase::Stopped) == (self.reason is Some)
        &&& self.phase == CoordinatorPhase::Draining ==> self.registry.live() != Set::<u64>::empty()
    }

    pub fn new() -> (r: Coordinator)
        ensures
            r.wf(),
            r.spec_phase() == CoordinatorPhase::Running,
            r.spec_signal() == SignalState::Running,
            r.live() == Set::<u64>::empty(),
            r.issued() == 0,
            r.spec_reason() is None,
    {
        Coordinator {
            phase: CoordinatorPhase::Running,
            registry: Registry::new(),
            signal: ShutdownSignal::new(),
            reason: None,
        }
    }

    pub fn phase(&self) -> (r: CoordinatorPhase)
        ensures
            r == self.spec_phase(),
    {
        self.phase
    }

    pub fn stop_reason(&self) -> (r: Option<StopReason>)
        ensures
            r == self.spec_reason(),
    {
        self.reason
    }

    /// Whether shutdown has begun: the flag is set exactly when the
    /// coordinator no longer runs.
    pub fn is_shutting_down(&self) -> (r: bool)
        requires
            self.wf(),
        ensures
            r == (self.spec_signal() == SignalState::ShuttingDown),
            r == (self.spec_phase() != CoordinatorPhase::Running),
    {
        self.signal.is_shutting_down()
    }

    /// How many connections are live.
    pub fn live_count(&self) -> (r: usize)
        requires
            self.wf(),
        ensures
            r == self.live().len(),
            self.live().finite(),
    {
        self.registry.len()
    }

    /// A connection was accepted. While running it is registered and its
    /// handle returned; once shutdown began it is refused.
    pub fn on_accept(&mut self) -> (r: Option<ConnectionHandle>)
        requires
            old(self).wf(),
        ensures
            final(self).wf(),
            final(self).spec_phase() == old(self).spec_phase(),
            final(self).spec_signal() == old(self).spec_signal(),
            final(self).spec_reason() == old(self).spec_reason(),
            r is Some <==> old(self).spec_phase() == CoordinatorPhase::Running && old(self).issued()
                < u64::MAX,
            r is Some ==> {
                &&& r->0.spec_id() == old(self).issued()
                &&& !old(self).live().contains(r->0.spec_id())
                &&& final(self).live() == old(self).live().insert(r->0.spec_id())
                &&& final(self).issued() == old(self).issued() + 1
            },
            r is None ==> final(self).live() == old(self).live() && final(self).issued() == old(self).issued(),
    {
        if self.phase != CoordinatorPhase::Running {
            return None;
        }
        self.registry.register()
    }

    /// The connection with this handle finished, however it ended. Its
    /// handle leaves the registry; if that empties the registry while
    /// draining, the coordinator stops with every connection drained.
    pub fn on_connection_done(&mut self, h: ConnectionHandle)
        requires
            old(self).wf(),
        ensures
            final(self).wf(),
            final(self).live() == old(self).live().remove(h.spec_id()),
            final(self).spec_signal() == old(self).spec_signal(),
            old(self).spec_phase() != CoordinatorPhase::Draining ==> final(self).spec_phase()
                == old(self).spec_phase() && final(self).spec_reason() == old(self).spec_reason(),
            old(self).spec_phase() == CoordinatorPhase::Draining ==> if final(self).live() == Set::<u64>::empty() {
                final(self).spec_phase() == CoordinatorPhase::Stopped && final(self).spec_reason()
                    == Some(StopReason::Drained)
            } else {
                final(self).spec_phase() == CoordinatorPhase::Draining
            },
    {
        self.registry.unregister(h);
        if self.phase == CoordinatorPhase::Draining && self.registry.is_empty() {
            self.phase = CoordinatorPhase::Stopped;
            self.reason = Some(StopReason::Drained);
        }
    }

    /// The external shutdown trigger fired. The first time, the
    /// coordinator stops admitting connections and sets the shutdown flag,
    /// and stops at once if no connection is live; later triggers change
    /// nothing. Returns whether this trigger began the shutdown.
    pub fn on_trigger(&mut self) -> (r: bool)
        requires
            old(self).wf(),
        ensures
            final(self).wf(),
            r == (old(self).spec_phase() == CoordinatorPhase::Running),
            final(self).live() == old(self).live(),
            final(self).spec_signal() == SignalState::ShuttingDown,
            !r ==> final(self).spec_phase() == old(self).spec_phase() && final(self).spec_reason()
                == old(self).spec_reason(),
            r ==> if old(self).live() == Set::<u64>::empty() {
                final(self).spec_phase() == CoordinatorPhase::Stopped && final(self).spec_reason()
                    == Some(StopReason::Drained)
            } else {
                final(self).spec_phase() == CoordinatorPhase::Draining
            },
    {
        let switched = self.signal.trigger();
        if !switched {
            return false;
        }
        if self.registry.is_empty() {
            self.phase = CoordinatorPhase::Stopped;
            self.reason = Some(StopReason::Drained);
        } else {
            self.phase = CoordinatorPhase::Draining;
        }
        true
    }

    /// The grace period ran out. While draining, the coordinator stops and
    /// reports how many connections it abandons, never none; otherwise
    /// nothing changes and `None` is returned.
    pub fn on_grace_elapsed(&mut self) -> (r: Option<StopReason>)
        requires
            old(self).wf(),
        ensures
            final(self).wf(),
            final(self).live() == old(self).live(),
            final(self).spec_signal() == old(self).spec_signal(),
            r is Some <==> old(self).spec_phase() == CoordinatorPhase::Draining,
            r is None ==> final(self).spec_phase() == old(self).spec_phase() && final(self).spec_reason() == old(self).spec_reason(),
            r is Some ==> {
                &&& r == Some(StopReason::TimedOut(old(self).live().len() as usize))
                &&& old(self).live().len() > 0
                &&& final(self).spec_phase() == CoordinatorPhase::Stopped
                &&& final(self).spec_reason() == r
            },
    {
        if self.phase != CoordinatorPhase::Draining {
            return None;
        }
        let n = self.registry.len();
        proof {
            vstd::set_lib::lemma_set_empty_equivalency_len(self.registry.live());
        }
        let reason = StopReason::TimedOut(n);
        self.phase = CoordinatorPhase::Stopped;
        self.reason = Some(reason);
        Some(reason)
    }
}

} // verus!
