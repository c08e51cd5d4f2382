//! The shared channel state and its verified protocol steps.
//!
//! One `ChannelState` is shared (behind a lock) by every handle of one
//! channel. Each executable operation here is proved to follow the model's
//! transition functions exactly: the abstract view after the call, and the
//! returned value, are the ones `model` prescribes.

use vstd::prelude::*;

use crate::buffer::queue_capacity;
use crate::buffer::queue_items;
use crate::buffer::queue_new;
use crate::buffer::queue_pop;
use crate::buffer::queue_push;
use crate::model::clone_sender_step;
use crate::model::drop_receiver_step;
use crate::model::drop_sender_step;
use crate::model::initial_model;
use crate::model::recv_outcome;
use crate::model::recv_step;
use crate::model::send_outcome;
use crate::model::send_step;
use crate::model::ChanModel;
use crate::model::PollRecv;
use crate::model::PollSend;
use crate::wake::waker_clone;
use crate::wake::waker_wake;
use crossbeam_queue::ArrayQueue;
use std::task::Waker;

verus! {

/// The part of the shared state particular to this channel flavor: the
/// fixed-capacity FIFO buffer holding the items in flight.
pub struct StateExtension {
    pub queue: ArrayQueue<u64>,
}

impl StateExtension {
    /// A fresh, empty buffer of the given capacity.
    pub fn new(capacity: usize) -> (r: StateExtension)
        requires
            1 <= capacity,
            capacity <= usize::MAX / 2,
        ensures
            queue_capacity(r.queue) == capacity,
            queue_items(r.queue) == Seq::<u64>::empty(),
    {
        StateExtension { queue: queue_new(capacity) }
    }
}

/// Everything one channel's handles share: the buffer, the bookkeeping for
/// the closing protocol, and one wake-handle slot per side.
pub struct ChannelState {
    pub capacity: usize,
    pub extension: StateExtension,
    pub sender_count: usize,
    pub receiver_alive: bool,
    pub pending_sender_waker: Option<Waker>,
    pub pending_receiver_waker: Option<Waker>,
    /// Ghost tally of producer-side wake invocations.
    pub sender_wakes: Ghost<nat>,
    /// Ghost tally of consumer-side wake invocations.
    pub receiver_wakes: Ghost<nat>,
}

impl View for ChannelState {
    type V = ChanModel;

    open spec fn view(&self) -> ChanModel {
        ChanModel {
            capacity: self.capacity as nat,
            items: queue_items(self.extension.queue),
            sender_count: self.sender_count as nat,
            receiver_alive: self.receiver_alive,
            sender_waiting: self.pending_sender_waker is Some,
            receiver_waiting: self.pending_receiver_waker is Some,
            sender_wakes: self.sender_wakes@,
            receiver_wakes: self.receiver_wakes@,
        }
    }
}

/// Takes the wake handle out of the slot, if one is registered, and invokes
/// it. The single slot is empty afterwards either way.
fn notify_slot(slot: &mut Option<Waker>)
    ensures
        *final(slot) is None,
{
    match slot.take() {
        Some(w) => waker_wake(w),
        None => {},
    }
}

impl ChannelState {
    /// Well-formedness: the buffer really has the advertised capacity and
    /// the abstract state satisfies its invariant.
    pub open spec fn wf(&self) -> bool {
        &&& queue_capacity(self.extension.queue) == self.capacity as nat
        &&& self@.inv()
    }

    /// The state of a fresh channel: empty buffer, one live sender, a live
    /// receiver, nobody waiting.
    pub fn new(capacity: usize) -> (r: ChannelState)
        requires
            1 <= capacity,
            capacity <= usize::MAX / 2,
        ensures
            r.wf(),
            r@ == initial_model(capacity as nat),
    {
        let r = ChannelState {
            capacity,
            extension: StateExtension::new(capacity),
            sender_count: 1,
            receiver_alive: true,
            pending_sender_waker: None,
            pending_receiver_waker: None,
            sender_wakes: Ghost(0),
            receiver_wakes: Ghost(0),
        };
        r
    }

    /// A producer's send attempt: exactly one `send_step` of the model.
    ///
    /// If the receiver is gone the item comes back as `Rejected` and nothing
    /// changes. Otherwise, if the buffer has room, the item is appended and a
    /// waiting consumer is woken (`Ready`); if the buffer is full, the
    /// caller's wake handle is registered in the single producer slot and the
    /// item comes back as `Pending`.
    pub fn poll_send(&mut self, value: u64, waker: &Waker) -> (r: PollSend)
        requires
            old(self).wf(),
        ensures
            final(self).wf(),
            final(self)@ == send_step(old(self)@, value),
            r == send_outcome(old(self)@, value),
            r is Pending ==> final(self).pending_sender_waker == Some(*waker),
            r is Pending ==> final(self).pending_receiver_waker == old(self).pending_receiver_waker,
            r is Ready ==> final(self).pending_sender_waker == old(self).pending_sender_waker,
            r is Rejected ==> *final(self) == *old(self),
    {
        if !self.receiver_alive {
            return PollSend::Rejected(value);
        }
        match queue_push(&mut self.extension.queue, value) {
            Ok(_) => {
                let ghost woke: nat = if self.pending_receiver_waker is Some { 1 } else { 0 };
                self.receiver_wakes = Ghost(self.receiver_wakes@ + woke);
                notify_slot(&mut self.pending_receiver_waker);
                PollSend::Ready
            },
            Err(v) => {
                self.pending_sender_waker = Some(waker_clone(waker));
                PollSend::Pending(v)
            },
        }
    }

    /// The consumer's receive attempt: exactly one `recv_step` of the model.
    ///
    /// If the buffer holds an item, the oldest one is popped and a waiting
    /// producer is woken (`Ready`). On an empty buffer the attempt reports
    /// `Closed` once all senders are gone; otherwise it registers the
    /// caller's wake handle in the single consumer slot and reports
    /// `Pending`.
    pub fn poll_recv(&mut self, waker: &Waker) -> (r: PollRecv)
        requires
            old(self).wf(),
        ensures
            final(self).wf(),
            final(self)@ == recv_step(old(self)@),
            r == recv_outcome(old(self)@),
            r is Pending ==> final(self).pending_receiver_waker == Some(*waker),
            r is Pending ==> final(self).pending_sender_waker == old(self).pending_sender_waker,
            r is Ready ==> final(self).pending_receiver_waker == old(self).pending_receiver_waker,
            r is Closed ==> *final(self) == *old(self),
    {
        match queue_pop(&mut self.extension.queue) {
            Some(v) => {
                let ghost woke: nat = if self.pending_sender_waker is Some { 1 } else { 0 };
                self.sender_wakes = Ghost(self.sender_wakes@ + woke);
                notify_slot(&mut self.pending_sender_waker);
                PollRecv::Ready(v)
            },
            None => {
                if self.sender_count == 0 {
                    return PollRecv::Closed;
                }
                self.pending_receiver_waker = Some(waker_clone(waker));
                PollRecv::Pending
            },
        }
    }

    /// Bookkeeping for a cloned producer handle: one more live sender. The
    /// count saturates at the machine limit instead of wrapping.
    pub fn add_sender(&mut self)
        requires
            old(self).wf(),
        ensures
            final(self).wf(),
            final(self)@ == clone_sender_step(old(self)@),
            final(self).extension == old(self).extension,
            final(self).pending_sender_waker == old(self).pending_sender_waker,
            final(self).pending_receiver_waker == old(self).pending_receiver_waker,
    {
        if self.sender_count < usize::MAX {
            self.sender_count = self.sender_count + 1;
        }
    }

    /// Bookkeeping for a dropped producer handle: one fewer live sender. The
    /// last producer to go wakes a waiting consumer unconditionally, so a
    /// consumer blocked on an empty buffer re-evaluates and observes
    /// `Closed`.
    pub fn remove_sender(&mut self)
        requires
            old(self).wf(),
        ensures
            final(self).wf(),
            final(self)@ == drop_sender_step(old(self)@),
            final(self).extension == old(self).extension,
            final(self).pending_sender_waker == old(self).pending_sender_waker,
            old(self).sender_count != 1 ==> final(self).pending_receiver_waker == old(self).pending_receiver_waker,
    {
        if self.sender_count == 1 {
            self.sender_count = 0;
            let ghost woke: nat = if self.pending_receiver_waker is Some { 1 } else { 0 };
            self.receiver_wakes = Ghost(self.receiver_wakes@ + woke);
            notify_slot(&mut self.pending_receiver_waker);
        } else if self.sender_count > 1 {
            self.sender_count = self.sender_count - 1;
        }
    }

    /// Bookkeeping for the dropped consumer handle: the receiver is gone for
    /// good, and a waiting producer is woken so it re-evaluates and observes
    /// the rejection.
    pub fn close_receiver(&mut self)
        requires
            old(self).wf(),
        ensures
            final(self).wf(),
            final(self)@ == drop_receiver_step(old(self)@),
            final(self).extension == old(self).extension,
            final(self).pending_receiver_waker == old(self).pending_receiver_waker,
    {
        self.receiver_alive = false;
        let ghost woke: nat = if self.pending_sender_waker is Some { 1 } else { 0 };
        self.sender_wakes = Ghost(self.sender_wakes@ + woke);
        notify_slot(&mut self.pending_sender_waker);
    }
}

} // verus!
