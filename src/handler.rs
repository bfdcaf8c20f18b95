//! The application handler the server runs on the normal path.

use vstd::prelude::*;
use crate::negotiate::STATUS_OK;

verus! {

/// A response on the normal path: a status and a body.
pub struct Reply {
    pub status: u16,
    pub body: Vec<u8>,
}

/// The bytes of `Hello, World!`.
pub open spec fn spec_hello_body() -> Seq<u8> {
    seq![72u8, 101u8, 108u8, 108u8, 111u8, 44u8, 32u8, 87u8, 111u8, 114u8, 108u8, 100u8, 33u8]
}

/// Answers every request with `200` and `Hello, World!`.
pub fn hello() -> (r: Reply)
    ensures
        r.status == STATUS_OK,
        r.body@ == spec_hello_body(),
{
    let body = vec![72u8, 101u8, 108u8, 108u8, 111u8, 44u8, 32u8, 87u8, 111u8, 114u8, 108u8, 100u8, 33u8];
    assert(body@ =~= spec_hello_body());
    Reply { status: STATUS_OK, body }
}

} // verus!
