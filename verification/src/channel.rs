//! The channel handles: cloneable producers, one consumer, one factory.
//!
//! Every handle of one channel holds a reference-counted pointer to the same
//! verified lock around the shared [`ChannelState`]. Each operation acquires
//! the lock, performs exactly one verified protocol step on the state, and
//! releases the lock; the lock's invariant is the state's well-formedness, so
//! every step starts from a well-formed state whatever the other handles did
//! in between.

use vstd::prelude::*;
use vstd::rwlock::RwLock;

use crate::model::PollRecv;
use crate::model::PollSend;
use crate::state::ChannelState;
use std::sync::Arc;
use std::task::Waker;

verus! {

/// The lock around one channel's shared state.
pub type StateLock = RwLock<ChannelState, spec_fn(ChannelState) -> bool>;

/// The lock invariant for a channel of the given capacity: between
/// operations the shared state is well-formed and still has the capacity the
/// channel was built with.
pub open spec fn state_inv(cap: nat) -> spec_fn(ChannelState) -> bool {
    |s: ChannelState| s.wf() && s@.capacity == cap
}

/// Relies on `std::sync::Arc::clone`: the clone is a handle to the same
/// allocation, hence to the very same lock.
#[verifier::external_body]
fn arc_clone(a: &Arc<StateLock>) -> (r: Arc<StateLock>)
    ensures
        r == *a,
{
    Arc::clone(a)
}

/// A producer handle. Any number may coexist; clones share the channel and
/// are counted in the shared state for the closing protocol.
pub struct Sender {
    shared: Arc<StateLock>,
    cap: Ghost<nat>,
}

/// The consumer handle. Exactly one per channel; it owns the right to pop
/// items.
pub struct Receiver {
    shared: Arc<StateLock>,
    cap: Ghost<nat>,
}

impl Sender {
    /// The lock this handle shares, as an abstract value.
    pub closed spec fn chan(&self) -> StateLock {
        *self.shared
    }

    /// The capacity of the channel this handle belongs to.
    pub closed spec fn capacity(&self) -> nat {
        self.cap@
    }

    /// The handle points at a lock whose invariant is well-formedness at this
    /// handle's capacity.
    pub open spec fn wf(&self) -> bool {
        self.chan().pred() == state_inv(self.capacity())
    }

    /// A producer's send attempt on the shared state; one verified
    /// [`ChannelState::poll_send`] step under the lock. Whatever state the
    /// lock held, a `Rejected` or `Pending` result hands the very item back;
    /// the exact outcome for each state is [`ChannelState::poll_send`]'s
    /// contract.
    pub fn poll_send(&self, value: u64, waker: &Waker) -> (r: PollSend)
        requires
            self.wf(),
        ensures
            r is Rejected ==> r->Rejected_0 == value,
            r is Pending ==> r->Pending_0 == value,
    {
        let (mut st, wh) = self.shared.acquire_write();
        let r = st.poll_send(value, waker);
        wh.release_write(st);
        r
    }

    /// A new, fully equivalent producer handle on the same channel, counted
    /// in the shared state.
    pub fn clone(&self) -> (r: Sender)
        requires
            self.wf(),
        ensures
            r.wf(),
            r.chan() == self.chan(),
            r.capacity() == self.capacity(),
    {
        let (mut st, wh) = self.shared.acquire_write();
        st.add_sender();
        wh.release_write(st);
        Sender { shared: arc_clone(&self.shared), cap: Ghost(self.cap@) }
    }

    /// Gives this producer handle up: the counterpart of dropping it. The
    /// last producer to go wakes a waiting consumer unconditionally, so a
    /// consumer blocked on an empty buffer re-evaluates and observes
    /// `Closed`.
    pub fn disconnect(self)
        requires
            self.wf(),
    {
        let (mut st, wh) = self.shared.acquire_write();
        st.remove_sender();
        wh.release_write(st);
    }
}

impl Receiver {
    /// The lock this handle shares, as an abstract value.
    pub closed spec fn chan(&self) -> StateLock {
        *self.shared
    }

    /// The capacity of the channel this handle belongs to.
    pub closed spec fn capacity(&self) -> nat {
        self.cap@
    }

    /// The handle points at a lock whose invariant is well-formedness at this
    /// handle's capacity.
    pub open spec fn wf(&self) -> bool {
        self.chan().pred() == state_inv(self.capacity())
    }

    /// The consumer's receive attempt on the shared state; one verified
    /// [`ChannelState::poll_recv`] step under the lock. See that contract for
    /// the exact outcome in each state.
    pub fn poll_recv(&self, waker: &Waker) -> (r: PollRecv)
        requires
            self.wf(),
    {
        let (mut st, wh) = self.shared.acquire_write();
        let r = st.poll_recv(waker);
        wh.release_write(st);
        r
    }

    /// Gives the consumer handle up: the counterpart of dropping it. Every
    /// later send attempt is rejected, and a waiting producer is woken so it
    /// observes the rejection.
    pub fn disconnect(self)
        requires
            self.wf(),
    {
        let (mut st, wh) = self.shared.acquire_write();
        st.close_receiver();
        wh.release_write(st);
    }
}

/// Builds one channel with the given buffer capacity and returns its first
/// producer handle and its only consumer handle, bound to the same shared
/// state.
///
/// A zero capacity is ruled out by precondition: a rendezvous channel, where
/// send and receive must coincide, is a different design, and the backing
/// buffer cannot be built without room for at least one item. The upper
/// bound is the machine limit the buffer's allocation imposes.
pub fn channel(capacity: usize) -> (r: (Sender, Receiver))
    requires
        1 <= capacity,
        capacity <= usize::MAX / 2,
    ensures
        r.0.wf(),
        r.1.wf(),
        r.0.chan() == r.1.chan(),
        r.0.capacity() == capacity,
        r.1.capacity() == capacity,
{
    let state = ChannelState::new(capacity);
    let lock = StateLock::new(state, Ghost(state_inv(capacity as nat)));
    let shared = Arc::new(lock);
    let sender = Sender { shared: arc_clone(&shared), cap: Ghost(capacity as nat) };
    let receiver = Receiver { shared, cap: Ghost(capacity as nat) };
    (sender, receiver)
}

} // verus!
