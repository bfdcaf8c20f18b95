//! The fixed exchange run over an upgraded stream: the client writes a
//! preamble, the server reads exactly that many bytes and answers with an
//! acknowledgment, and the client reads until the peer closes.

use vstd::prelude::*;
use crate::negotiate::STATUS_SWITCHING_PROTOCOLS;

verus! {

/// Length of the preamble the server reads.
pub const PREAMBLE_LEN: usize = 7;

/// The preamble the client writes: the bytes of `foo=bar`.
pub open spec fn spec_preamble() -> Seq<u8> {
    seq![102u8, 111u8, 111u8, 61u8, 98u8, 97u8, 114u8]
}

/// The acknowledgment the server writes: the bytes of `bar=foo`.
pub open spec fn spec_ack() -> Seq<u8> {
    seq![98u8, 97u8, 114u8, 61u8, 102u8, 111u8, 111u8]
}

/// The preamble, as bytes.
pub fn preamble() -> (r: Vec<u8>)
    ensures
        r@ == spec_preamble(),
        r@.len() == PREAMBLE_LEN,
{
    let r = vec![102u8, 111u8, 111u8, 61u8, 98u8, 97u8, 114u8];
    assert(r@ =~= spec_preamble());
    r
}

/// The acknowledgment, as bytes.
pub fn ack() -> (r: Vec<u8>)
    ensures
        r@ == spec_ack(),
{
    let r = vec![98u8, 97u8, 114u8, 61u8, 102u8, 111u8, 111u8];
    assert(r@ =~= spec_ack());
    r
}

/// Why a handshake failed.
#[derive(Debug, PartialEq, Eq, Structural)]
pub enum HandshakeError {
    /// The transport connection could not be established.
    ConnectFailed,
    /// The peer answered the upgrade request with this status instead of `101`.
    UpgradeRejected(u16),
    /// The peer closed before the whole preamble arrived.
    TruncatedRead,
}

/// The client's check of the status that answered its upgrade request.
pub fn check_upgrade_status(status: u16) -> (r: Result<(), HandshakeError>)
    ensures
        r is Ok <==> status == STATUS_SWITCHING_PROTOCOLS,
        r is Err ==> r->Err_0 == HandshakeError::UpgradeRejected(status),
{
    if status == STATUS_SWITCHING_PROTOCOLS {
        Ok(())
    } else {
        Err(HandshakeError::UpgradeRejected(status))
    }
}

/// Appends the first `n` bytes of `src` to `dst`.
fn append_prefix(dst: &mut Vec<u8>, src: &[u8], n: usize)
    requires
        n <= src@.len(),
    ensures
        final(dst)@ == old(dst)@ + src@.take(n as int),
{
    let mut i: usize = 0;
    while i < n
        invariant
            n <= src@.len(),
            0 <= i <= n,
            dst@ == old(dst)@ + src@.take(i as int),
        decreases n - i,
    {
        dst.push(src[i]);
        assert(src@.take(i + 1) =~= src@.take(i as int).push(src@[i as int]));
        i = i + 1;
    }
}

/// What the server does after a read on the upgraded stream.
#[derive(Debug, PartialEq, Eq)]
pub enum ServerStep {
    /// Read again, for at most this many bytes.
    ReadMore(usize),
    /// The preamble is complete: write these bytes, then close.
    Reply(Vec<u8>),
    /// The peer closed too early.
    Fail(HandshakeError),
    /// The acknowledgment was already given: nothing more is read or written.
    Finished,
}

/// The server's side of the handshake: the preamble bytes received so far.
pub struct ServerHandshake {
    received: Vec<u8>,
}

impl ServerHandshake {
    pub closed spec fn view(&self) -> Seq<u8> {
        self.received@
    }

    pub open spec fn wf(&self) -> bool {
        self@.len() <= PREAMBLE_LEN
    }

    /// The preamble is complete.
    pub open spec fn spec_complete(&self) -> bool {
        self@.len() == PREAMBLE_LEN
    }

    pub fn new() -> (r: ServerHandshake)
        ensures
            r.wf(),
            r@ == Seq::<u8>::empty(),
    {
        ServerHandshake { received: Vec::new() }
    }

    /// The bytes received so far.
    pub fn received(&self) -> (r: &[u8])
        ensures
            r@ == self@,
    {
        self.received.as_slice()
    }

    /// How many preamble bytes are still to come.
    pub fn remaining(&self) -> (r: usize)
        requires
            self.wf(),
        ensures
            r == PREAMBLE_LEN - self@.len(),
    {
        PREAMBLE_LEN - self.received.len()
    }

    /// Takes in the bytes of one read; an empty read means the peer closed.
    ///
    /// At most the missing part of the preamble is kept. The read that
    /// completes it gets the acknowledgment, once; every read after that is
    /// `Finished`. Before that, an empty read fails with `TruncatedRead` and
    /// any other asks for the rest.
    pub fn on_read(&mut self, chunk: &[u8]) -> (r: ServerStep)
        requires
            old(self).wf(),
        ensures
            final(self).wf(),
            final(self)@ == old(self)@ + chunk@.take(
                vstd::math::min(chunk@.len() as int, PREAMBLE_LEN - old(self)@.len()),
            ),
            old(self).spec_complete() ==> r == ServerStep::Finished,
            !old(self).spec_complete() && final(self).spec_complete() ==> r is Reply
                && r->Reply_0@ == spec_ack(),
            !final(self).spec_complete() && chunk@.len() == 0 ==> r == ServerStep::Fail(
                HandshakeError::TruncatedRead,
            ),
            !final(self).spec_complete() && chunk@.len() > 0 ==> r == ServerStep::ReadMore(
                (PREAMBLE_LEN - final(self)@.len()) as usize,
            ),
    {
        if self.received.len() == PREAMBLE_LEN {
            assert(chunk@.take(0) =~= Seq::<u8>::empty());
            assert(self@ + Seq::<u8>::empty() =~= self@);
            return ServerStep::Finished;
        }
        let rem = self.remaining();
        let n = if chunk.len() < rem { chunk.len() } else { rem };
        append_prefix(&mut self.received, chunk, n);
        if self.received.len() == PREAMBLE_LEN {
            ServerStep::Reply(ack())
        } else if chunk.len() == 0 {
            ServerStep::Fail(HandshakeError::TruncatedRead)
        } else {
            ServerStep::ReadMore(PREAMBLE_LEN - self.received.len())
        }
    }
}

/// The client's side of the handshake, after it wrote the preamble: the
/// bytes read back so far, and whether the peer has closed.
pub struct ClientHandshake {
    received: Vec<u8>,
    closed: bool,
}

impl ClientHandshake {
    pub closed spec fn view(&self) -> Seq<u8> {
        self.received@
    }

    pub closed spec fn spec_closed(&self) -> bool {
        self.closed
    }

    pub fn new() -> (r: ClientHandshake)
        ensures
            r@ == Seq::<u8>::empty(),
            !r.spec_closed(),
    {
        ClientHandshake { received: Vec::new(), closed: false }
    }

    /// The bytes to write first on the upgraded stream.
    pub fn opening(&self) -> (r: Vec<u8>)
        ensures
            r@ == spec_preamble(),
    {
        preamble()
    }

    /// Takes in the bytes of one read; an empty read means the peer closed,
    /// which ends the exchange and hands back everything read.
    pub fn on_read(&mut self, chunk: &[u8]) -> (r: Option<Vec<u8>>)
        ensures
            final(self).spec_closed() == (old(self).spec_closed() || chunk@.len() == 0),
            old(self).spec_closed() ==> final(self)@ == old(self)@,
            !old(self).spec_closed() ==> final(self)@ == old(self)@ + chunk@,
            r is Some <==> final(self).spec_closed(),
            r is Some ==> r->0@ == final(self)@,
    {
        if !self.closed {
            if chunk.len() == 0 {
                self.closed = true;
            } else {
                append_prefix(&mut self.received, chunk, chunk.len());
                assert(chunk@.take(chunk@.len() as int) =~= chunk@);
            }
        }
        if self.closed {
            Some(self.received.clone())
        } else {
            None
        }
    }
}

} // verus!
