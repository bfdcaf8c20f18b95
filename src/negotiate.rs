//! Server-side negotiation of a protocol upgrade on one request.

use vstd::prelude::*;

verus! {

/// `101 Switching Protocols`.
pub const STATUS_SWITCHING_PROTOCOLS: u16 = 101;

/// `200 OK`.
pub const STATUS_OK: u16 = 200;

/// `400 Bad Request`.
pub const STATUS_BAD_REQUEST: u16 = 400;

/// The one protocol token this server switches to: the bytes of `foobar`.
pub open spec fn spec_supported_token() -> Seq<u8> {
    seq![102u8, 111u8, 111u8, 98u8, 97u8, 114u8]
}

/// The supported protocol token, as bytes.
pub fn supported_token() -> (r: Vec<u8>)
    ensures
        r@ == spec_supported_token(),
{
    let r = vec![102u8, 111u8, 111u8, 98u8, 97u8, 114u8];
    assert(r@ =~= spec_supported_token());
    r
}

/// Whether two byte strings are equal.
pub fn bytes_eq(a: &[u8], b: &[u8]) -> (r: bool)
    ensures
        r == (a@ == b@),
{
    if a.len() != b.len() {
        return false;
    }
    let mut i: usize = 0;
    while i < a.len()
        invariant
            a@.len() == b@.len(),
            0 <= i <= a@.len(),
            a@.subrange(0, i as int) == b@.subrange(0, i as int),
        decreases a@.len() - i,
    {
        if a[i] != b[i] {
            assert(a@[i as int] != b@[i as int]);
            return false;
        }
        assert(a@.subrange(0, i + 1) =~= a@.subrange(0, i as int).push(a@[i as int]));
        assert(b@.subrange(0, i + 1) =~= b@.subrange(0, i as int).push(b@[i as int]));
        i = i + 1;
    }
    assert(a@ =~= a@.subrange(0, a@.len() as int));
    assert(b@ =~= b@.subrange(0, b@.len() as int));
    true
}

/// What negotiation reads of a request: the value of its `Upgrade` header,
/// if it has one.
pub struct UpgradeRequest {
    pub upgrade: Option<Vec<u8>>,
}

/// What negotiation decides of the response: its status and the value of
/// its `Upgrade` header, if any.
pub struct UpgradeResponse {
    pub status: u16,
    pub upgrade: Option<Vec<u8>>,
}

/// The outcome of negotiation: the response to send, and whether the stream
/// is detached and handed to the post-upgrade protocol once that response
/// has been flushed.
pub struct Negotiation {
    pub response: UpgradeResponse,
    pub detach: bool,
}

impl UpgradeRequest {
    /// The request asks for exactly the supported token.
    pub open spec fn asks_supported(&self) -> bool {
        self.upgrade is Some && self.upgrade->0@ == spec_supported_token()
    }
}

impl UpgradeResponse {
    /// `101`, echoing the supported token.
    pub open spec fn is_switching(&self) -> bool {
        &&& self.status == STATUS_SWITCHING_PROTOCOLS
        &&& self.upgrade is Some
        &&& self.upgrade->0@ == spec_supported_token()
    }

    /// `400`, with no `Upgrade` header.
    pub open spec fn is_rejection(&self) -> bool {
        &&& self.status == STATUS_BAD_REQUEST
        &&& self.upgrade is None
    }
}

/// Decides the response to a request on the upgrade endpoint.
///
/// A request that asks for exactly the supported token gets `101` with that
/// token echoed and the stream detached; any other request, with no
/// `Upgrade` header or with another token, gets `400` and keeps its stream.
pub fn negotiate(req: &UpgradeRequest) -> (r: Negotiation)
    ensures
        r.detach == req.asks_supported(),
        r.detach ==> r.response.is_switching(),
        !r.detach ==> r.response.is_rejection(),
{
    let token = supported_token();
    let accepted = match &req.upgrade {
        Some(v) => bytes_eq(v.as_slice(), token.as_slice()),
        None => false,
    };
    if accepted {
        Negotiation {
            response: UpgradeResponse { status: STATUS_SWITCHING_PROTOCOLS, upgrade: Some(token) },
            detach: true,
        }
    } else {
        Negotiation {
            response: UpgradeResponse { status: STATUS_BAD_REQUEST, upgrade: None },
            detach: false,
        }
    }
}

} // verus!
