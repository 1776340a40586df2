//! A request-dispatch service core: a type-indexed per-request context,
//! connection-scoped service variants, and an isolation boundary that
//! resolves every handler outcome into a well-formed response.

use vstd::prelude::*;

pub mod context;
pub mod handler;
pub mod path;
pub mod service;
pub mod trap;
pub mod wire;

verus! {

/// A correlation token generated once per request and stored in its
/// context. It is drawn from a process-wide random source, so tokens of
/// different requests are distinct throughout a process run as far as that
/// source does not repeat a draw.
#[derive(Clone, Copy, PartialEq, Eq, Structural, Debug)]
pub struct RequestId {
    pub value: u128,
}

/// Relies on `uuid::Uuid::new_v4`: a version-4 identifier freshly drawn
/// from the process's random source on every call. Nothing can be promised
/// of a random value; that two draws practically never coincide is the
/// documented property of that source, on which identifier uniqueness
/// within a process run rests.
#[verifier::external_body]
pub(crate) fn fresh_request_id() -> RequestId {
    RequestId { value: uuid::Uuid::new_v4().as_u128() }
}

} // verus!
