use bounded_mpsc::channel;
use bounded_mpsc::PollRecv;
use bounded_mpsc::PollSend;
use futures_test::task::new_count_waker;
use futures_test::task::noop_waker;
use futures_test::task::panic_waker;

#[test]
fn send_accepted() {
    let w = panic_waker();
    let (tx, _rx) = channel(2);

    assert_eq!(PollSend::Ready, tx.poll_send(1, &w));
}

#[test]
fn send_blocks() {
    let w = panic_waker();
    let (tx, _rx) = channel(2);

    assert_eq!(PollSend::Ready, tx.poll_send(1, &w));
    assert_eq!(PollSend::Ready, tx.poll_send(1, &w));
}

#[test]
fn send_recv() {
    let w = panic_waker();
    let (tx, rx) = channel(2);

    assert_eq!(PollSend::Ready, tx.poll_send(1, &w));
    assert_eq!(PollSend::Ready, tx.poll_send(2, &w));
    assert_eq!(PollSend::Pending(3), tx.poll_send(3, &noop_waker()));

    assert_eq!(PollRecv::Ready(1), rx.poll_recv(&w));
    assert_eq!(PollRecv::Ready(2), rx.poll_recv(&w));
    assert_eq!(PollRecv::Pending, rx.poll_recv(&w));
}

#[test]
fn sender_disconnect() {
    let w = panic_waker();
    let (tx, rx) = channel(100);
    let tx2 = tx.clone();

    assert_eq!(PollSend::Ready, tx.poll_send(1, &w));
    assert_eq!(PollSend::Ready, tx2.poll_send(2, &w));

    tx.disconnect();
    tx2.disconnect();

    assert_eq!(PollRecv::Ready(1), rx.poll_recv(&w));
    assert_eq!(PollRecv::Ready(2), rx.poll_recv(&w));
    assert_eq!(PollRecv::Closed, rx.poll_recv(&w));
}

#[test]
fn receiver_disconnect() {
    let w = panic_waker();
    let (tx, rx) = channel(100);
    let tx2 = tx.clone();

    assert_eq!(PollSend::Ready, tx.poll_send(1, &w));
    assert_eq!(PollSend::Ready, tx2.poll_send(2, &w));

    rx.disconnect();

    assert_eq!(PollSend::Rejected(3), tx.poll_send(3, &w));
    assert_eq!(PollSend::Rejected(4), tx2.poll_send(4, &w));
}

#[test]
fn wake_sender() {
    let w = panic_waker();
    let (tx, rx) = channel(1);

    assert_eq!(PollSend::Ready, tx.poll_send(1, &w));

    let (w2, w2_count) = new_count_waker();
    assert_eq!(PollSend::Pending(2), tx.poll_send(2, &w2));

    assert_eq!(0, w2_count.get());

    assert_eq!(PollRecv::Ready(1), rx.poll_recv(&w));

    assert_eq!(1, w2_count.get());
    assert_eq!(PollRecv::Pending, rx.poll_recv(&w));

    assert_eq!(1, w2_count.get());
}

#[test]
fn wake_receiver() {
    let w = panic_waker();
    let (tx, rx) = channel(100);

    let (w1, w1_count) = new_count_waker();

    assert_eq!(PollRecv::Pending, rx.poll_recv(&w1));

    assert_eq!(0, w1_count.get());

    assert_eq!(PollSend::Ready, tx.poll_send(1, &w));

    assert_eq!(1, w1_count.get());

    assert_eq!(PollSend::Ready, tx.poll_send(2, &w));

    assert_eq!(1, w1_count.get());
}

#[test]
fn full_buffer_retry_after_drain() {
    let w = panic_waker();
    let (tx, rx) = channel(2);

    assert_eq!(PollSend::Ready, tx.poll_send(1, &w));
    assert_eq!(PollSend::Ready, tx.poll_send(2, &w));
    assert_eq!(PollSend::Pending(3), tx.poll_send(3, &noop_waker()));

    assert_eq!(PollRecv::Ready(1), rx.poll_recv(&w));
    assert_eq!(PollRecv::Ready(2), rx.poll_recv(&w));
    assert_eq!(PollRecv::Pending, rx.poll_recv(&noop_waker()));

    assert_eq!(PollSend::Ready, tx.poll_send(3, &w));
    assert_eq!(PollRecv::Ready(3), rx.poll_recv(&w));
}

#[test]
fn full_buffer_hands_item_back_unchanged() {
    let w = panic_waker();
    let (tx, rx) = channel(1);

    assert_eq!(PollSend::Ready, tx.poll_send(41, &w));
    assert_eq!(PollSend::Pending(57), tx.poll_send(57, &noop_waker()));
    assert_eq!(PollSend::Pending(57), tx.poll_send(57, &noop_waker()));

    assert_eq!(PollRecv::Ready(41), rx.poll_recv(&w));
    assert_eq!(PollRecv::Pending, rx.poll_recv(&noop_waker()));
}

#[test]
fn reject_immediately_after_receiver_gone() {
    let w = panic_waker();
    let (tx, rx) = channel(4);

    rx.disconnect();

    let tx2 = tx.clone();
    assert_eq!(PollSend::Rejected(10), tx.poll_send(10, &w));
    assert_eq!(PollSend::Rejected(11), tx2.poll_send(11, &w));

    let tx3 = tx2.clone();
    assert_eq!(PollSend::Rejected(12), tx3.poll_send(12, &w));
}

#[test]
fn fifo_order_within_capacity() {
    let w = panic_waker();
    let (tx, rx) = channel(100);

    for i in 0..50u64 {
        assert_eq!(PollSend::Ready, tx.poll_send(i, &w));
    }
    for i in 0..50u64 {
        assert_eq!(PollRecv::Ready(i), rx.poll_recv(&w));
    }
    assert_eq!(PollRecv::Pending, rx.poll_recv(&noop_waker()));
}

#[test]
fn capacity_one_alternating() {
    let w = panic_waker();
    let (tx, rx) = channel(1);

    for i in 0..8u64 {
        assert_eq!(PollSend::Ready, tx.poll_send(i, &w));
        assert_eq!(PollRecv::Ready(i), rx.poll_recv(&w));
    }
}

#[test]
fn closed_only_after_drained() {
    let w = panic_waker();
    let (tx, rx) = channel(3);

    assert_eq!(PollSend::Ready, tx.poll_send(7, &w));
    assert_eq!(PollSend::Ready, tx.poll_send(8, &w));

    tx.disconnect();

    assert_eq!(PollRecv::Ready(7), rx.poll_recv(&w));
    assert_eq!(PollRecv::Ready(8), rx.poll_recv(&w));
    assert_eq!(PollRecv::Closed, rx.poll_recv(&w));
    assert_eq!(PollRecv::Closed, rx.poll_recv(&w));
}

#[test]
fn last_sender_drop_wakes_receiver() {
    let (tx, rx) = channel(2);
    let tx2 = tx.clone();

    let (w1, w1_count) = new_count_waker();
    assert_eq!(PollRecv::Pending, rx.poll_recv(&w1));

    tx.disconnect();
    assert_eq!(0, w1_count.get());

    tx2.disconnect();
    assert_eq!(1, w1_count.get());

    assert_eq!(PollRecv::Closed, rx.poll_recv(&panic_waker()));
}

#[test]
fn receiver_drop_wakes_blocked_sender() {
    let w = panic_waker();
    let (tx, rx) = channel(1);

    assert_eq!(PollSend::Ready, tx.poll_send(1, &w));

    let (w2, w2_count) = new_count_waker();
    assert_eq!(PollSend::Pending(2), tx.poll_send(2, &w2));
    assert_eq!(0, w2_count.get());

    rx.disconnect();
    assert_eq!(1, w2_count.get());

    assert_eq!(PollSend::Rejected(2), tx.poll_send(2, &w));
}
