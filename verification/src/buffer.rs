//! Trusted surface over the fixed-capacity FIFO buffer.
//!
//! The channel keeps its items in a `crossbeam_queue::ArrayQueue`. The queue
//! is opaque to the verifier, so its contents and its fixed capacity get
//! uninterpreted names here, and one small wrapper per method states, over
//! those names, exactly what the queue's documentation promises.

use vstd::prelude::*;

verus! {

/// Declares `crossbeam_queue::ArrayQueue` so it can stand in fields and
/// signatures; its values stay opaque.
#[verifier::external_type_specification]
#[verifier::external_body]
#[verifier::reject_recursive_types(T)]
pub struct ExArrayQueue<T>(crossbeam_queue::ArrayQueue<T>);

/// The items the queue holds, oldest first.
pub uninterp spec fn queue_items(q: crossbeam_queue::ArrayQueue<u64>) -> Seq<u64>;

/// The capacity the queue was created with.
pub uninterp spec fn queue_capacity(q: crossbeam_queue::ArrayQueue<u64>) -> nat;

/// Relies on `crossbeam_queue::ArrayQueue::new`: builds an empty queue with
/// the given capacity. It panics on a zero or absurdly large capacity, which
/// the precondition rules out.
#[verifier::external_body]
pub(crate) fn queue_new(capacity: usize) -> (q: crossbeam_queue::ArrayQueue<u64>)
    requires
        1 <= capacity,
        capacity <= usize::MAX / 2,
    ensures
        queue_capacity(q) == capacity,
        queue_items(q) == Seq::<u64>::empty(),
{
    crossbeam_queue::ArrayQueue::new(capacity)
}

/// Relies on `crossbeam_queue::ArrayQueue::push`: appends the value at the
/// back, or — exactly when the queue is full — leaves the queue untouched and
/// hands the value back as `Err`.
#[verifier::external_body]
pub(crate) fn queue_push(q: &mut crossbeam_queue::ArrayQueue<u64>, value: u64) -> (r: Result<(), u64>)
    ensures
        queue_capacity(*final(q)) == queue_capacity(*old(q)),
        r is Ok <==> queue_items(*old(q)).len() < queue_capacity(*old(q)),
        r is Ok ==> queue_items(*final(q)) == queue_items(*old(q)).push(value),
        r is Err ==> *final(q) == *old(q) && r->Err_0 == value,
{
    q.push(value)
}

/// Relies on `crossbeam_queue::ArrayQueue::pop`: removes and returns the
/// oldest item, or — exactly when the queue is empty — leaves the queue
/// untouched and returns `None`.
#[verifier::external_body]
pub(crate) fn queue_pop(q: &mut crossbeam_queue::ArrayQueue<u64>) -> (r: Option<u64>)
    ensures
        queue_capacity(*final(q)) == queue_capacity(*old(q)),
        r is Some <==> queue_items(*old(q)).len() > 0,
        r is Some ==> r == Some(queue_items(*old(q))[0]) && queue_items(*final(q))
            == queue_items(*old(q)).drop_first(),
        r is None ==> *final(q) == *old(q),
{
    q.pop()
}

} // verus!
