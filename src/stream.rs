//! The life of one stream on the upgrade endpoint: HTTP exchanges while it
//! is active, one `101` response, the flush of that response, then raw
//! bytes only, until it closes.

use vstd::prelude::*;
use crate::negotiate::{negotiate, UpgradeRequest, UpgradeResponse, STATUS_SWITCHING_PROTOCOLS};
use crate::handshake::{HandshakeError, ServerHandshake, ServerStep, spec_ack, PREAMBLE_LEN};

verus! {

/// Where a stream stands.
#[derive(Debug, Clone, Copy, PartialEq, Eq, Structural)]
pub enum Phase {
    /// HTTP framing; requests are served.
    Active,
    /// A `101` response is written and not yet flushed.
    Upgrading,
    /// The `101` response is flushed; only raw bytes from here on.
    Upgraded,
    /// Nothing more happens on the stream.
    Closed,
}

/// What happens on a stream, as far as its framing is concerned.
pub ghost enum StreamEvent {
    /// An HTTP response with this status is written.
    HttpResponse(u16),
    /// The written HTTP response has been flushed to the peer.
    Flushed,
    /// Raw bytes are written.
    RawWrite(Seq<u8>),
    /// The stream closes.
    Close,
}

/// The phase after one event, or `None` where the event may not happen.
pub open spec fn spec_step(p: Phase, e: StreamEvent) -> Option<Phase> {
    match e {
        StreamEvent::Close => Some(Phase::Closed),
        StreamEvent::HttpResponse(status) => if p == Phase::Active {
            if status == STATUS_SWITCHING_PROTOCOLS {
                Some(Phase::Upgrading)
            } else {
                Some(Phase::Active)
            }
        } else {
            None
        },
        StreamEvent::Flushed => if p == Phase::Upgrading {
            Some(Phase::Upgraded)
        } else {
            None
        },
        StreamEvent::RawWrite(_) => if p == Phase::Upgraded {
            Some(Phase::Upgraded)
        } else {
            None
        },
    }
}

/// The phase after a sequence of events from `Active`, or `None` where the
/// sequence is not a possible life of a stream.
pub open spec fn run(t: Seq<StreamEvent>) -> Option<Phase>
    decreases t.len(),
{
    if t.len() == 0 {
        Some(Phase::Active)
    } else {
        match run(t.drop_last()) {
            Some(p) => spec_step(p, t.last()),
            None => None,
        }
    }
}

/// Phases in the only order a stream goes through them.
pub open spec fn rank(p: Phase) -> int {
    match p {
        Phase::Active => 0,
        Phase::Upgrading => 1,
        Phase::Upgraded => 2,
        Phase::Closed => 3,
    }
}

proof fn lemma_prefix_runs(t: Seq<StreamEvent>, i: int, j: int)
    requires
        0 <= i <= j <= t.len(),
        run(t.take(j)) is Some,
    ensures
        run(t.take(i)) is Some,
        rank(run(t.take(i))->0) <= rank(run(t.take(j))->0),
    decreases j - i,
{
    if i < j {
        assert(t.take(j).drop_last() =~= t.take(j - 1));
        lemma_prefix_runs(t, i, j - 1);
    }
}

/// A stream never returns to an earlier phase: in particular, once
/// upgraded it is never active again.
pub proof fn lemma_phases_never_go_back(t: Seq<StreamEvent>, i: int, j: int)
    requires
        0 <= i <= j <= t.len(),
        run(t) is Some,
    ensures
        run(t.take(i)) is Some,
        run(t.take(j)) is Some,
        rank(run(t.take(i))->0) <= rank(run(t.take(j))->0),
        run(t.take(i))->0 == Phase::Upgraded ==> run(t.take(j))->0 != Phase::Active,
{
    assert(t.take(t.len() as int) =~= t);
    lemma_prefix_runs(t, j, t.len() as int);
    lemma_prefix_runs(t, i, j);
}

proof fn lemma_upgraded_has_flushed_switch(t: Seq<StreamEvent>, k: int)
    requires
        run(t) is Some,
        0 <= k <= t.len(),
        run(t.take(k)) == Some(Phase::Upgraded),
    ensures
        exists|i: int|
            0 <= i < k && t[i] == StreamEvent::HttpResponse(STATUS_SWITCHING_PROTOCOLS)
                && run(t.take(i))->0 == Phase::Active,
        exists|f: int| 0 <= f < k && t[f] == StreamEvent::Flushed,
    decreases k,
{
    assert(t.take(0).len() == 0);
    assert(k > 0);
    lemma_phases_never_go_back(t, k - 1, k);
    assert(t.take(k).drop_last() =~= t.take(k - 1));
    if t[k - 1] is RawWrite {
        lemma_upgraded_has_flushed_switch(t, k - 1);
    } else {
        assert(t[k - 1] == StreamEvent::Flushed);
        assert(run(t.take(k - 1))->0 == Phase::Upgrading);
        assert(t.take(k - 1).len() > 0);
        lemma_phases_never_go_back(t, k - 2, k - 1);
        assert(t.take(k - 1).drop_last() =~= t.take(k - 2));
        assert(t[k - 2] == StreamEvent::HttpResponse(STATUS_SWITCHING_PROTOCOLS));
    }
}

/// On the upgrade path HTTP and raw bytes never interleave: a raw write
/// comes only after a `101` response that was flushed, and no HTTP
/// response follows a raw write.
pub proof fn lemma_raw_bytes_follow_flushed_switch(t: Seq<StreamEvent>, j: int)
    requires
        run(t) is Some,
        0 <= j < t.len(),
        t[j] is RawWrite,
    ensures
        exists|i: int|
            0 <= i < j && t[i] == StreamEvent::HttpResponse(STATUS_SWITCHING_PROTOCOLS)
                && run(t.take(i))->0 == Phase::Active,
        exists|k: int| 0 <= k < j && t[k] == StreamEvent::Flushed,
        forall|k: int| j < k < t.len() ==> !(t[k] is HttpResponse),
{
    lemma_phases_never_go_back(t, j, j + 1);
    assert(t.take(j + 1).drop_last() =~= t.take(j));
    assert(run(t.take(j))->0 == Phase::Upgraded);
    lemma_upgraded_has_flushed_switch(t, j);
    assert forall|m: int| j < m < t.len() implies !(t[m] is HttpResponse) by {
        lemma_phases_never_go_back(t, j, m);
        lemma_phases_never_go_back(t, m, m + 1);
        assert(t.take(m + 1).drop_last() =~= t.take(m));
    }
}

/// One stream on the upgrade endpoint: its phase, the post-upgrade
/// handshake, and the events that happened on it so far.
pub struct UpgradeStream {
    phase: Phase,
    handshake: ServerHandshake,
    events: Ghost<Seq<StreamEvent>>,
}

impl UpgradeStream {
    pub closed spec fn spec_phase(&self) -> Phase {
        self.phase
    }

    /// Everything that happened on the stream, in order.
    pub closed spec fn events(&self) -> Seq<StreamEvent> {
        self.events@
    }

    /// The preamble bytes received since the upgrade.
    pub closed spec fn preamble_received(&self) -> Seq<u8> {
        self.handshake@
    }

    pub closed spec fn wf(&self) -> bool {
        &&& run(self.events@) == Some(self.phase)
        &&& self.handshake.wf()
        &&& self.phase != Phase::Upgraded ==> self.handshake@.len() == 0 || self.phase
            == Phase::Closed
        &&& forall|i: int|
            0 <= i < self.events@.len() && #[trigger] self.events@[i] is RawWrite ==> {
                &&& self.events@[i] == StreamEvent::RawWrite(spec_ack())
                &&& self.handshake.spec_complete()
                &&& forall|j: int| 0 <= j < self.events@.len() && j != i ==> !(self.events@[j] is RawWrite)
            }
    }

    pub fn new() -> (r: UpgradeStream)
        ensures
            r.wf(),
            r.spec_phase() == Phase::Active,
            r.events() == Seq::<StreamEvent>::empty(),
            r.preamble_received() == Seq::<u8>::empty(),
    {
        UpgradeStream { phase: Phase::Active, handshake: ServerHandshake::new(), events: Ghost(Seq::empty()) }
    }

    pub fn phase(&self) -> (r: Phase)
        ensures
            r == self.spec_phase(),
    {
        self.phase
    }

    /// How many preamble bytes the handshake still waits for.
    pub fn remaining_preamble(&self) -> (r: usize)
        requires
            self.wf(),
        ensures
            r == PREAMBLE_LEN - self.preamble_received().len(),
    {
        self.handshake.remaining()
    }

    /// A request arrived. While the stream is active it is negotiated and
    /// the response to write is returned; after that no HTTP response is
    /// ever given.
    pub fn on_request(&mut self, req: &UpgradeRequest) -> (r: Option<UpgradeResponse>)
        requires
            old(self).wf(),
        ensures
            final(self).wf(),
            r is Some <==> old(self).spec_phase() == Phase::Active,
            r is None ==> *final(self) == *old(self),
            r is Some ==> {
                &&& req.asks_supported() ==> r->0.is_switching()
                &&& !req.asks_supported() ==> r->0.is_rejection()
                &&& final(self).spec_phase() == if req.asks_supported() {
                    Phase::Upgrading
                } else {
                    Phase::Active
                }
                &&& final(self).events() == old(self).events().push(
                    StreamEvent::HttpResponse(r->0.status),
                )
                &&& final(self).preamble_received() == old(self).preamble_received()
            },
    {
        if self.phase != Phase::Active {
            return None;
        }
        let n = negotiate(req);
        let ghost before = self.events@;
        self.events = Ghost(self.events@.push(StreamEvent::HttpResponse(n.response.status)));
        assert(self.events@.drop_last() =~= before);
        if n.detach {
            self.phase = Phase::Upgrading;
        }
        Some(n.response)
    }

    /// The `101` response has been flushed: the stream is now raw. Returns
    /// whether that happened, which it does only right after the switch.
    pub fn on_flushed(&mut self) -> (r: bool)
        requires
            old(self).wf(),
        ensures
            final(self).wf(),
            r == (old(self).spec_phase() == Phase::Upgrading),
            !r ==> *final(self) == *old(self),
            r ==> final(self).spec_phase() == Phase::Upgraded && final(self).events() == old(self).events().push(StreamEvent::Flushed) && final(self).preamble_received() == old(self).preamble_received(),
    {
        if self.phase != Phase::Upgrading {
            return false;
        }
        let ghost before = self.events@;
        self.events = Ghost(self.events@.push(StreamEvent::Flushed));
        assert(self.events@.drop_last() =~= before);
        self.phase = Phase::Upgraded;
        true
    }

    /// Bytes were read on the upgraded stream (none: the peer closed).
    /// Only an upgraded stream whose preamble is not yet complete reads raw
    /// bytes; there they go to the handshake, whose acknowledgment is
    /// recorded as the raw write it asks for, and whose failure closes the
    /// stream. Once the acknowledgment is given, nothing more is read.
    pub fn on_raw_read(&mut self, chunk: &[u8]) -> (r: Option<ServerStep>)
        requires
            old(self).wf(),
        ensures
            final(self).wf(),
            final(self).preamble_received().len() <= PREAMBLE_LEN,
            r is Some <==> old(self).spec_phase() == Phase::Upgraded
                && old(self).preamble_received().len() < PREAMBLE_LEN,
            r is None ==> *final(self) == *old(self),
            r is Some ==> {
                let got = old(self).preamble_received() + chunk@.take(
                    vstd::math::min(
                        chunk@.len() as int,
                        PREAMBLE_LEN - old(self).preamble_received().len(),
                    ),
                );
                &&& final(self).preamble_received() == got
                &&& got.len() == PREAMBLE_LEN ==> r->0 is Reply && r->0->Reply_0@ == spec_ack()
                    && final(self).spec_phase() == Phase::Upgraded && final(self).events()
                    == old(self).events().push(StreamEvent::RawWrite(spec_ack()))
                &&& got.len() < PREAMBLE_LEN && chunk@.len() == 0 ==> r->0 == ServerStep::Fail(
                    HandshakeError::TruncatedRead,
                ) && final(self).spec_phase() == Phase::Closed && final(self).events() == old(self).events().push(StreamEvent::Close)
                &&& got.len() < PREAMBLE_LEN && chunk@.len() > 0 ==> r->0
                    == ServerStep::ReadMore((PREAMBLE_LEN - got.len()) as usize) && final(self).spec_phase() == Phase::Upgraded && final(self).events() == old(self).events()
            },
    {
        if self.phase != Phase::Upgraded || self.handshake.remaining() == 0 {
            return None;
        }
        let ghost before = self.events@;
        let step = self.handshake.on_read(chunk);
        match &step {
            ServerStep::Reply(bytes) => {
                self.events = Ghost(self.events@.push(StreamEvent::RawWrite(bytes@)));
                assert(self.events@.drop_last() =~= before);
            },
            ServerStep::Fail(_) => {
                self.events = Ghost(self.events@.push(StreamEvent::Close));
                assert(self.events@.drop_last() =~= before);
                self.phase = Phase::Closed;
            },
            _ => {},
        }
        Some(step)
    }

    /// The stream closes, whatever its phase.
    pub fn close(&mut self)
        requires
            old(self).wf(),
        ensures
            final(self).wf(),
            final(self).spec_phase() == Phase::Closed,
            final(self).events() == old(self).events().push(StreamEvent::Close),
    {
        let ghost before = self.events@;
        self.events = Ghost(self.events@.push(StreamEvent::Close));
        assert(self.events@.drop_last() =~= before);
        self.phase = Phase::Closed;
    }

    /// The server writes at most one raw write on a stream, the
    /// acknowledgment, and only once the whole preamble has arrived.
    pub proof fn lemma_at_most_one_ack(&self)
        requires
            self.wf(),
        ensures
            self.preamble_received().len() <= PREAMBLE_LEN,
            forall|i: int|
                0 <= i < self.events().len() && #[trigger] self.events()[i] is RawWrite ==> {
                    &&& self.events()[i] == StreamEvent::RawWrite(spec_ack())
                    &&& self.preamble_received().len() == PREAMBLE_LEN
                },
            forall|i: int, j: int|
                0 <= i < self.events().len() && 0 <= j < self.events().len() && #[trigger] self.events()[i] is RawWrite
                    && #[trigger] self.events()[j] is RawWrite ==> i == j,
    {
    }

    /// What happened on a well-formed stream is a possible life of a
    /// stream, so the laws above hold of it.
    pub proof fn lemma_events_run(&self)
        requires
            self.wf(),
        ensures
            run(self.events()) == Some(self.spec_phase()),
    {
    }
}

} // verus!
