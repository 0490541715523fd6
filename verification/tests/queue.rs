use zbl::error::{ApiFailure, Error};
use zbl::queue::{Delivery, FrameId, PendingFrameQueue, Polled, QUEUE_CAPACITY};

#[test]
fn queue_hands_items_out_oldest_first() {
    let mut queue = PendingFrameQueue::with_capacity(4);
    assert!(queue.is_empty());
    assert_eq!(queue.capacity(), 4);
    for n in [5u64, 3, 9] {
        assert_eq!(queue.try_send(Some(FrameId(n))), Delivery::Queued);
    }
    assert_eq!(queue.len(), 3);
    assert_eq!(queue.try_recv(), Polled::Item(Some(FrameId(5))));
    assert_eq!(queue.try_recv(), Polled::Item(Some(FrameId(3))));
    assert_eq!(queue.try_recv(), Polled::Item(Some(FrameId(9))));
    assert_eq!(queue.try_recv(), Polled::Empty);
    assert!(queue.is_empty());
}

#[test]
fn full_queue_drops_the_newcomer_and_keeps_the_rest() {
    let mut queue = PendingFrameQueue::with_capacity(2);
    assert_eq!(queue.try_send(Some(FrameId(1))), Delivery::Queued);
    assert_eq!(queue.try_send(Some(FrameId(2))), Delivery::Queued);
    assert_eq!(queue.try_send(Some(FrameId(3))), Delivery::Dropped);
    assert_eq!(queue.try_send(None), Delivery::Dropped);
    assert_eq!(queue.len(), 2);
    assert_eq!(queue.try_recv(), Polled::Item(Some(FrameId(1))));
    assert_eq!(queue.try_send(Some(FrameId(4))), Delivery::Queued);
    assert_eq!(queue.try_recv(), Polled::Item(Some(FrameId(2))));
    assert_eq!(queue.try_recv(), Polled::Item(Some(FrameId(4))));
    assert_eq!(queue.try_recv(), Polled::Empty);
}

#[test]
fn queue_without_room_drops_everything() {
    let mut queue = PendingFrameQueue::with_capacity(0);
    assert_eq!(queue.try_send(Some(FrameId(1))), Delivery::Dropped);
    assert_eq!(queue.try_recv(), Polled::Empty);
}

#[test]
fn end_of_stream_marker_waits_in_line() {
    let mut queue = PendingFrameQueue::with_capacity(3);
    queue.try_send(Some(FrameId(1)));
    assert_eq!(queue.try_send(None), Delivery::Queued);
    assert_eq!(queue.try_recv(), Polled::Item(Some(FrameId(1))));
    assert_eq!(queue.try_recv(), Polled::Item(None));
    assert_eq!(queue.try_recv(), Polled::Empty);
}

#[test]
fn dropped_sender_is_noticed_after_the_queue_is_drained() {
    let mut queue = PendingFrameQueue::with_capacity(3);
    queue.try_send(Some(FrameId(1)));
    queue.drop_sender();
    assert_eq!(queue.try_send(Some(FrameId(2))), Delivery::Disconnected);
    assert_eq!(queue.len(), 1);
    assert_eq!(queue.try_recv(), Polled::Item(Some(FrameId(1))));
    assert_eq!(queue.try_recv(), Polled::Disconnected);
    assert_eq!(queue.try_recv(), Polled::Disconnected);
}

#[test]
fn dropped_receiver_turns_items_away() {
    let mut queue = PendingFrameQueue::with_capacity(3);
    queue.try_send(Some(FrameId(1)));
    queue.drop_receiver();
    assert_eq!(queue.len(), 0);
    assert_eq!(queue.try_send(Some(FrameId(2))), Delivery::Disconnected);
    assert_eq!(queue.len(), 0);
    assert_eq!(queue.try_recv(), Polled::Disconnected);
}

#[test]
fn pipeline_queue_holds_thirty_two() {
    let mut queue = PendingFrameQueue::new();
    assert_eq!(queue.capacity(), 32);
    assert_eq!(QUEUE_CAPACITY, 32);
    for n in 0..32u64 {
        assert_eq!(queue.try_send(Some(FrameId(n))), Delivery::Queued);
    }
    assert_eq!(queue.try_send(Some(FrameId(32))), Delivery::Dropped);
    assert_eq!(queue.len(), 32);
}

#[test]
fn producer_queues_frames_and_passes_failures_on() {
    let mut queue = PendingFrameQueue::with_capacity(1);
    let failure = ApiFailure { code: -2147467259 };
    assert_eq!(queue.frame_arrived(Err(failure)), Err(Error::Capture(failure)));
    assert_eq!(queue.len(), 0);
    assert_eq!(queue.frame_arrived(Ok(FrameId(8))), Ok(Delivery::Queued));
    assert_eq!(queue.frame_arrived(Ok(FrameId(9))), Ok(Delivery::Dropped));
    assert_eq!(queue.try_recv(), Polled::Item(Some(FrameId(8))));
    assert_eq!(queue.end_of_stream(), Delivery::Queued);
    assert_eq!(queue.try_recv(), Polled::Item(None));
}

#[test]
fn producer_is_turned_away_once_the_read_end_is_gone() {
    let mut queue = PendingFrameQueue::with_capacity(4);
    queue.drop_receiver();
    assert_eq!(queue.frame_arrived(Ok(FrameId(1))), Ok(Delivery::Disconnected));
    assert_eq!(queue.end_of_stream(), Delivery::Disconnected);
    assert_eq!(queue.len(), 0);
}
