//! Laws of the channel protocol, proved over the model.
//!
//! Each proof function here states a guarantee of the protocol as a whole —
//! across several steps, or for every state — over the same transition
//! functions that the executable operations are proved to follow.

use vstd::prelude::*;

use crate::model::clone_sender_step;
use crate::model::drop_receiver_step;
use crate::model::drop_sender_step;
use crate::model::initial_model;
use crate::model::recv_outcome;
use crate::model::recv_step;
use crate::model::send_outcome;
use crate::model::send_step;
use crate::model::ChanModel;
use crate::model::PollRecv;
use crate::model::PollSend;

verus! {

/// Every protocol step preserves the state invariant.
pub proof fn lemma_steps_preserve_inv(m: ChanModel, v: u64)
    requires
        m.inv(),
    ensures
        send_step(m, v).inv(),
        recv_step(m).inv(),
        clone_sender_step(m).inv(),
        drop_sender_step(m).inv(),
        drop_receiver_step(m).inv(),
{
}

/// The state after the sends of `vs`, attempted oldest first.
pub open spec fn apply_sends(m: ChanModel, vs: Seq<u64>) -> ChanModel
    decreases vs.len(),
{
    if vs.len() == 0 {
        m
    } else {
        apply_sends(send_step(m, vs[0]), vs.drop_first())
    }
}

/// Whether every one of the sends of `vs`, attempted oldest first, is
/// accepted.
pub open spec fn sends_all_accepted(m: ChanModel, vs: Seq<u64>) -> bool
    decreases vs.len(),
{
    vs.len() == 0 || (send_outcome(m, vs[0]) == PollSend::Ready && sends_all_accepted(
        send_step(m, vs[0]),
        vs.drop_first(),
    ))
}

/// Law: while the receiver is alive, a sequence of sends that fits into the
/// buffer's remaining space is accepted in full, and afterwards the buffer
/// holds exactly the old items followed by the sent ones, in order.
pub proof fn lemma_sends_within_capacity(m: ChanModel, vs: Seq<u64>)
    requires
        m.inv(),
        m.receiver_alive,
        m.items.len() + vs.len() <= m.capacity,
    ensures
        sends_all_accepted(m, vs),
        apply_sends(m, vs).items == m.items + vs,
    decreases vs.len(),
{
    if vs.len() == 0 {
        assert(m.items + vs =~= m.items);
    } else {
        let m1 = send_step(m, vs[0]);
        lemma_sends_within_capacity(m1, vs.drop_first());
        assert(m.items.push(vs[0]) + vs.drop_first() =~= m.items + vs);
    }
}

/// Law: on a freshly built channel, any sequence of sends no longer than the
/// capacity is accepted in full, and the buffer then holds exactly the items
/// sent — in send order, none lost, duplicated or reordered.
pub proof fn lemma_fresh_channel_accepts_all(capacity: nat, vs: Seq<u64>)
    requires
        1 <= capacity,
        vs.len() <= capacity,
    ensures
        sends_all_accepted(initial_model(capacity), vs),
        apply_sends(initial_model(capacity), vs).items == vs,
{
    lemma_sends_within_capacity(initial_model(capacity), vs);
    assert(Seq::<u64>::empty() + vs =~= vs);
}

/// Law: a send into a full buffer hands the very item back as `Pending`,
/// leaves the buffered items untouched, and registers the producer's wake
/// handle.
pub proof fn lemma_send_full_buffer(m: ChanModel, v: u64)
    requires
        m.inv(),
        m.receiver_alive,
        m.items.len() == m.capacity,
    ensures
        send_outcome(m, v) == PollSend::Pending(v),
        send_step(m, v).items == m.items,
        send_step(m, v).sender_waiting,
{
}

/// Law: once a producer has registered its wake handle, the first successful
/// pop invokes it exactly once and consumes the registration; the next
/// receive attempt — the next pop's notification cycle included — finds no
/// producer registration and invokes no producer wake handle.
pub proof fn lemma_producer_woken_once(m: ChanModel)
    requires
        m.inv(),
        m.sender_waiting,
        m.items.len() >= 1,
    ensures
        recv_step(m).sender_wakes == m.sender_wakes + 1,
        !recv_step(m).sender_waiting,
        recv_step(recv_step(m)).sender_wakes == m.sender_wakes + 1,
        !recv_step(recv_step(m)).sender_waiting,
{
}

/// Law: once the consumer has registered its wake handle, the first accepted
/// send invokes it exactly once and consumes the registration; a second
/// accepted send invokes no consumer wake handle.
pub proof fn lemma_consumer_woken_once(m: ChanModel, v: u64, w: u64)
    requires
        m.inv(),
        m.receiver_alive,
        m.receiver_waiting,
        m.items.len() + 2 <= m.capacity,
    ensures
        send_step(m, v).receiver_wakes == m.receiver_wakes + 1,
        !send_step(m, v).receiver_waiting,
        send_step(send_step(m, v), w).receiver_wakes == m.receiver_wakes + 1,
        !send_step(send_step(m, v), w).receiver_waiting,
{
}

/// The state after `n` receive attempts.
pub open spec fn apply_recvs(m: ChanModel, n: nat) -> ChanModel
    decreases n,
{
    if n == 0 {
        m
    } else {
        apply_recvs(recv_step(m), (n - 1) as nat)
    }
}

/// The outcomes of `n` receive attempts, in order.
pub open spec fn recv_outcomes(m: ChanModel, n: nat) -> Seq<PollRecv>
    decreases n,
{
    if n == 0 {
        Seq::empty()
    } else {
        seq![recv_outcome(m)] + recv_outcomes(recv_step(m), (n - 1) as nat)
    }
}

/// Law: after the last producer is gone, the buffered items still come out
/// one per receive attempt, in FIFO order, and only once the buffer is empty
/// does a receive attempt report `Closed`.
pub proof fn lemma_drain_after_senders_gone(m: ChanModel)
    requires
        m.inv(),
        m.sender_count == 0,
    ensures
        recv_outcomes(m, m.items.len()).len() == m.items.len(),
        forall|i: int|
            0 <= i < m.items.len() ==> recv_outcomes(m, m.items.len())[i] == PollRecv::Ready(
                m.items[i],
            ),
        apply_recvs(m, m.items.len()).items.len() == 0,
        recv_outcome(apply_recvs(m, m.items.len())) == PollRecv::Closed,
    decreases m.items.len(),
{
    if m.items.len() == 0 {
    } else {
        let m1 = recv_step(m);
        lemma_drain_after_senders_gone(m1);
        assert forall|i: int|
            0 <= i < m.items.len() implies recv_outcomes(m, m.items.len())[i] == PollRecv::Ready(
            m.items[i],
        ) by {
            if i > 0 {
                assert(recv_outcomes(m, m.items.len())[i] == recv_outcomes(m1, m1.items.len())[i
                    - 1]);
                assert(m1.items[i - 1] == m.items[i]);
            }
        }
    }
}

/// Law: a drained channel whose producers are all gone is terminal for the
/// consumer: every further receive attempt reports `Closed` and changes
/// nothing.
pub proof fn lemma_closed_is_terminal(m: ChanModel)
    requires
        m.sender_count == 0,
        m.items.len() == 0,
    ensures
        recv_outcome(m) == PollRecv::Closed,
        recv_step(m) == m,
{
}

/// Law: no send, receive or drop brings a producer back once the count has
/// reached zero. (Cloning is not listed: a clone is made from a live
/// producer handle, and none exists at count zero.)
pub proof fn lemma_senders_exhausted_is_permanent(m: ChanModel, v: u64)
    requires
        m.sender_count == 0,
    ensures
        send_step(m, v).sender_count == 0,
        recv_step(m).sender_count == 0,
        drop_sender_step(m).sender_count == 0,
        drop_receiver_step(m).sender_count == 0,
{
}

/// Law: once the receiver is gone, every send attempt is rejected with the
/// item handed back intact and the state unchanged.
pub proof fn lemma_receiver_gone_rejects(m: ChanModel, v: u64)
    requires
        !m.receiver_alive,
    ensures
        send_outcome(m, v) == PollSend::Rejected(v),
        send_step(m, v) == m,
{
}

/// Law: no protocol step revives a gone receiver, so rejection is permanent
/// for every existing or newly cloned producer handle.
pub proof fn lemma_receiver_gone_is_permanent(m: ChanModel, v: u64)
    requires
        !m.receiver_alive,
    ensures
        !send_step(m, v).receiver_alive,
        !recv_step(m).receiver_alive,
        !clone_sender_step(m).receiver_alive,
        !drop_sender_step(m).receiver_alive,
        !drop_receiver_step(m).receiver_alive,
{
}

} // verus!
