//! Trusted surface over the wake handle.
//!
//! A suspended caller registers a `std::task::Waker`; the channel later
//! invokes it to signal that a retry can make progress. The handle is opaque
//! to the verifier; the two wrappers below carry the little that the channel
//! relies on.

use vstd::prelude::*;

verus! {

/// Declares `std::task::Waker` so it can stand in fields and signatures; its
/// values stay opaque.
#[verifier::external_type_specification]
#[verifier::external_body]
pub struct ExWaker(std::task::Waker);

/// Relies on `std::task::Waker::clone`: the clone is a wake handle for the
/// same task as the original.
#[verifier::external_body]
pub(crate) fn waker_clone(w: &std::task::Waker) -> (r: std::task::Waker)
    ensures
        r == *w,
{
    w.clone()
}

/// Relies on `std::task::Waker::wake`: signals the task behind the handle.
/// Safe to call from any thread, any number of times.
#[verifier::external_body]
pub(crate) fn waker_wake(w: std::task::Waker) {
    w.wake()
}

} // verus!
