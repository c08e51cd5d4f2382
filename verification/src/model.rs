//! Mathematical model of the channel.
//!
//! A [`ChanModel`] captures everything the protocol decides on: the buffered
//! items, the fixed capacity, how many producer handles are alive, whether
//! the consumer handle is alive, and whether each side currently has a wake
//! handle registered. The spec functions below give the protocol's transition
//! relation; the executable channel state is proved to follow them step by
//! step.

use vstd::prelude::*;

verus! {

/// Result of a send attempt.
#[derive(Clone, Copy, Debug, PartialEq, Eq, Structural)]
pub enum PollSend {
    /// The item was placed in the buffer.
    Ready,
    /// The receiver is gone; the item is handed back and no retry can succeed.
    Rejected(u64),
    /// The buffer is full; the item is handed back and the caller's wake
    /// handle was registered for a retry once space frees up.
    Pending(u64),
}

/// Result of a receive attempt.
#[derive(Clone, Copy, Debug, PartialEq, Eq, Structural)]
pub enum PollRecv {
    /// An item was popped from the buffer.
    Ready(u64),
    /// The buffer is empty; the caller's wake handle was registered for a
    /// retry once an item arrives.
    Pending,
    /// All senders are gone and the buffer is drained; no item will ever
    /// arrive again.
    Closed,
}

/// Abstract state of one channel.
pub struct ChanModel {
    /// Fixed buffer capacity, at least 1.
    pub capacity: nat,
    /// Buffered items, oldest first.
    pub items: Seq<u64>,
    /// Number of live producer handles.
    pub sender_count: nat,
    /// Whether the consumer handle is still alive.
    pub receiver_alive: bool,
    /// Whether a producer's wake handle is registered (single slot).
    pub sender_waiting: bool,
    /// Whether the consumer's wake handle is registered (single slot).
    pub receiver_waiting: bool,
    /// How many times a registered producer wake handle has been invoked.
    pub sender_wakes: nat,
    /// How many times a registered consumer wake handle has been invoked.
    pub receiver_wakes: nat,
}

impl ChanModel {
    /// The state invariant: the buffer never exceeds the capacity, and the
    /// capacity is positive.
    pub open spec fn inv(self) -> bool {
        &&& 1 <= self.capacity
        &&& self.items.len() <= self.capacity
    }
}

/// The model right after construction with the given capacity: one live
/// sender, a live receiver, an empty buffer, nobody waiting.
pub open spec fn initial_model(capacity: nat) -> ChanModel {
    ChanModel {
        capacity: capacity,
        items: Seq::empty(),
        sender_count: 1,
        receiver_alive: true,
        sender_waiting: false,
        receiver_waiting: false,
        sender_wakes: 0,
        receiver_wakes: 0,
    }
}

/// What a send attempt of `v` returns in state `m`.
pub open spec fn send_outcome(m: ChanModel, v: u64) -> PollSend {
    if !m.receiver_alive {
        PollSend::Rejected(v)
    } else if m.items.len() < m.capacity {
        PollSend::Ready
    } else {
        PollSend::Pending(v)
    }
}

/// The state after a send attempt of `v` in state `m`. An accepted item is
/// appended and the waiting consumer (if any) is woken, which clears its
/// wake slot; a send into a full buffer registers the producer's wake
/// handle; a rejected send changes nothing.
pub open spec fn send_step(m: ChanModel, v: u64) -> ChanModel {
    if !m.receiver_alive {
        m
    } else if m.items.len() < m.capacity {
        ChanModel {
            items: m.items.push(v),
            receiver_waiting: false,
            receiver_wakes: m.receiver_wakes + (if m.receiver_waiting { 1nat } else { 0nat }),
            ..m
        }
    } else {
        ChanModel { sender_waiting: true, ..m }
    }
}

/// What a receive attempt returns in state `m`.
pub open spec fn recv_outcome(m: ChanModel) -> PollRecv {
    if m.items.len() > 0 {
        PollRecv::Ready(m.items[0])
    } else if m.sender_count == 0 {
        PollRecv::Closed
    } else {
        PollRecv::Pending
    }
}

/// The state after a receive attempt in state `m`. A successful pop removes
/// the oldest item and wakes the waiting producer (if any), which clears its
/// wake slot; a receive from an empty buffer with live senders registers the
/// consumer's wake handle; a closed channel changes nothing.
pub open spec fn recv_step(m: ChanModel) -> ChanModel {
    if m.items.len() > 0 {
        ChanModel {
            items: m.items.drop_first(),
            sender_waiting: false,
            sender_wakes: m.sender_wakes + (if m.sender_waiting { 1nat } else { 0nat }),
            ..m
        }
    } else if m.sender_count == 0 {
        m
    } else {
        ChanModel { receiver_waiting: true, ..m }
    }
}

/// The state after a producer handle is cloned: one more live sender. The
/// count saturates at the machine limit instead of wrapping.
pub open spec fn clone_sender_step(m: ChanModel) -> ChanModel {
    if m.sender_count < usize::MAX as nat {
        ChanModel { sender_count: m.sender_count + 1, ..m }
    } else {
        m
    }
}

/// The state after a producer handle is dropped: one fewer live sender; the
/// last one to go wakes the waiting consumer (if any) so it can observe the
/// closed state.
pub open spec fn drop_sender_step(m: ChanModel) -> ChanModel {
    if m.sender_count == 1 {
        ChanModel {
            sender_count: 0,
            receiver_waiting: false,
            receiver_wakes: m.receiver_wakes + (if m.receiver_waiting { 1nat } else { 0nat }),
            ..m
        }
    } else if m.sender_count > 1 {
        ChanModel { sender_count: (m.sender_count - 1) as nat, ..m }
    } else {
        m
    }
}

/// The state after the consumer handle is dropped: the receiver is gone for
/// good, and the waiting producer (if any) is woken so it can observe the
/// rejection.
pub open spec fn drop_receiver_step(m: ChanModel) -> ChanModel {
    ChanModel {
        receiver_alive: false,
        sender_waiting: false,
        sender_wakes: m.sender_wakes + (if m.sender_waiting { 1nat } else { 0nat }),
        ..m
    }
}

} // verus!
