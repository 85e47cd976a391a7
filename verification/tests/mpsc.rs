use traced_channel::mpsc::{channel, SendError, Sent, TracedReceiver, TracedSender, MAX_BUFFER};
use traced_channel::outcome::Polled;
use traced_channel::trace::{ChannelId, Endpoint, Message, Scope, TraceEvent, TraceLog};

#[test]
fn mpsc_halves_share_one_identity() {
    let (tx, rx) = channel::<u32>(4);
    assert_eq!(tx.context().endpoint, Endpoint::MpscTx);
    assert_eq!(rx.context().endpoint, Endpoint::MpscRx);
    assert_eq!(tx.context().id, rx.context().id);
    assert_eq!(tx.identity(), rx.identity());
    assert_eq!(uuid::Uuid::from_u128(tx.identity().value()).get_version_num(), 4);
}

#[test]
fn mpsc_channels_have_distinct_identities() {
    let (tx_a, _rx_a) = channel::<u32>(1);
    let (tx_b, _rx_b) = channel::<u32>(1);
    assert_ne!(tx_a.context().id, tx_b.context().id);
}

#[test]
fn mpsc_clone_keeps_the_identity() {
    let (tx, _rx) = channel::<u32>(2);
    let other = tx.clone();
    assert_eq!(other.context(), tx.context());
}

#[test]
fn mpsc_clone_feeds_the_same_queue() {
    let (tx, mut rx) = channel::<u32>(2);
    let other = tx.clone();
    let mut log = TraceLog::new();
    assert_eq!(tx.send(1, &mut log), Sent::Delivered);
    assert_eq!(other.send(2, &mut log), Sent::Delivered);
    assert_eq!(rx.recv(&mut log), Polled::Ready(Some(1)));
    assert_eq!(rx.recv(&mut log), Polled::Ready(Some(2)));
}

#[test]
fn mpsc_new_wraps_given_handles() {
    let (raw_tx, raw_rx) = tokio::sync::mpsc::channel::<u8>(1);
    let id = ChannelId::from_bits(42);
    let tx = TracedSender::new(raw_tx, id);
    let mut rx = TracedReceiver::new(raw_rx, id);
    assert_eq!(tx.context(), Scope { endpoint: Endpoint::MpscTx, id });
    assert_eq!(rx.context(), Scope { endpoint: Endpoint::MpscRx, id });
    let mut log = TraceLog::new();
    assert_eq!(tx.send(5, &mut log), Sent::Delivered);
    assert_eq!(rx.recv(&mut log), Polled::Ready(Some(5)));
}

#[test]
fn mpsc_values_arrive_in_the_order_sent() {
    let (tx, mut rx) = channel::<u32>(16);
    let mut log = TraceLog::new();
    let values: Vec<u32> = vec![7, 3, 9, 3, 0, 11, 5];
    for v in values.iter() {
        assert_eq!(tx.send(*v, &mut log), Sent::Delivered);
    }
    let mut got: Vec<u32> = Vec::new();
    while let Polled::Ready(Some(v)) = rx.recv(&mut log) {
        got.push(v);
    }
    assert_eq!(got, values);
}

#[test]
fn mpsc_send_beyond_capacity_has_to_wait() {
    for capacity in 1usize..=5 {
        let (tx, mut rx) = channel::<usize>(capacity);
        let mut log = TraceLog::new();
        for i in 0..capacity {
            assert_eq!(tx.send(i, &mut log), Sent::Delivered);
        }
        assert_eq!(tx.send(capacity, &mut log), Sent::Full(capacity));
        assert_eq!(rx.recv(&mut log), Polled::Ready(Some(0)));
        assert_eq!(tx.send(capacity, &mut log), Sent::Delivered);
        assert_eq!(tx.send(capacity + 1, &mut log), Sent::Full(capacity + 1));
    }
}

#[test]
fn mpsc_largest_buffer_is_accepted() {
    assert_eq!(MAX_BUFFER, usize::MAX >> 3);
    let (tx, mut rx) = channel::<u8>(MAX_BUFFER);
    let mut log = TraceLog::new();
    assert_eq!(tx.send(1, &mut log), Sent::Delivered);
    assert_eq!(rx.recv(&mut log), Polled::Ready(Some(1)));
}

#[test]
fn mpsc_dropping_every_sender_ends_the_stream() {
    let (tx, mut rx) = channel::<u32>(2);
    let other = tx.clone();
    let mut log = TraceLog::new();
    assert_eq!(rx.recv(&mut log), Polled::Pending);
    drop(tx);
    assert_eq!(rx.recv(&mut log), Polled::Pending);
    drop(other);
    assert_eq!(rx.recv(&mut log), Polled::Ready(None));
    assert_eq!(rx.recv(&mut log), Polled::Ready(None));
}

#[test]
fn mpsc_queued_values_outlive_their_senders() {
    let (tx, mut rx) = channel::<u32>(2);
    let mut log = TraceLog::new();
    assert_eq!(tx.send(1, &mut log), Sent::Delivered);
    assert_eq!(tx.send(2, &mut log), Sent::Delivered);
    drop(tx);
    assert_eq!(rx.recv(&mut log), Polled::Ready(Some(1)));
    assert_eq!(rx.recv(&mut log), Polled::Ready(Some(2)));
    assert_eq!(rx.recv(&mut log), Polled::Ready(None));
}

#[test]
fn mpsc_send_fails_once_the_receiver_is_gone() {
    let (tx, rx) = channel::<String>(2);
    let mut log = TraceLog::new();
    drop(rx);
    assert_eq!(
        tx.send(String::from("kept"), &mut log),
        Sent::Closed(SendError(String::from("kept")))
    );
}

#[test]
fn mpsc_close_rejects_new_values_and_keeps_queued_ones() {
    let (tx, mut rx) = channel::<u32>(4);
    let mut log = TraceLog::new();
    assert_eq!(tx.send(1, &mut log), Sent::Delivered);
    assert_eq!(tx.send(2, &mut log), Sent::Delivered);
    rx.close();
    assert_eq!(tx.send(3, &mut log), Sent::Closed(SendError(3)));
    assert_eq!(rx.recv(&mut log), Polled::Ready(Some(1)));
    assert_eq!(rx.recv(&mut log), Polled::Ready(Some(2)));
    assert_eq!(rx.recv(&mut log), Polled::Ready(None));
    assert_eq!(rx.context().endpoint, Endpoint::MpscRx);
}

#[test]
fn mpsc_close_records_nothing() {
    let (_tx, mut rx) = channel::<u32>(1);
    let before = rx.context();
    rx.close();
    assert_eq!(rx.context(), before);
}

#[test]
fn mpsc_send_records_one_event_before_each_attempt() {
    let (tx, rx) = channel::<u32>(1);
    let mut log = TraceLog::new();
    let sending = TraceEvent { scope: tx.context(), message: Message::Sending };
    assert_eq!(tx.send(1, &mut log), Sent::Delivered);
    assert_eq!(log.len(), 1);
    assert_eq!(tx.send(2, &mut log), Sent::Full(2));
    assert_eq!(log.len(), 2);
    drop(rx);
    assert_eq!(tx.send(3, &mut log), Sent::Closed(SendError(3)));
    assert_eq!(log.drain(), vec![sending, sending, sending]);
}

#[test]
fn mpsc_recv_records_only_resolved_attempts() {
    let (tx, mut rx) = channel::<u32>(1);
    let mut log = TraceLog::new();
    let maybe = TraceEvent { scope: rx.context(), message: Message::MaybeReceived };
    assert_eq!(rx.recv(&mut log), Polled::Pending);
    assert_eq!(log.len(), 0);
    let mut other = TraceLog::new();
    assert_eq!(tx.send(8, &mut other), Sent::Delivered);
    assert_eq!(rx.recv(&mut log), Polled::Ready(Some(8)));
    assert_eq!(log.len(), 1);
    drop(tx);
    assert_eq!(rx.recv(&mut log), Polled::Ready(None));
    assert_eq!(log.drain(), vec![maybe, maybe]);
}

#[test]
fn mpsc_events_of_both_halves_carry_the_identity() {
    let (tx, mut rx) = channel::<u32>(1);
    let mut log = TraceLog::new();
    assert_eq!(tx.send(1, &mut log), Sent::Delivered);
    assert_eq!(rx.recv(&mut log), Polled::Ready(Some(1)));
    let events = log.drain();
    assert_eq!(events.len(), 2);
    assert_eq!(events[0].scope.endpoint, Endpoint::MpscTx);
    assert_eq!(events[0].message, Message::Sending);
    assert_eq!(events[1].scope.endpoint, Endpoint::MpscRx);
    assert_eq!(events[1].message, Message::MaybeReceived);
    assert_eq!(events[0].scope.id, events[1].scope.id);
    assert_eq!(events[0].scope.id, tx.context().id);
}

#[test]
fn mpsc_observe_hands_the_outcome_on() {
    let (_tx, rx) = channel::<u32>(1);
    let mut log = TraceLog::new();
    assert_eq!(rx.observe(Polled::Pending, &mut log), Polled::Pending);
    assert_eq!(log.len(), 0);
    assert_eq!(rx.observe(Polled::Ready(Some(4)), &mut log), Polled::Ready(Some(4)));
    assert_eq!(log.len(), 1);
    assert_eq!(rx.observe(Polled::Ready(None), &mut log), Polled::Ready(None));
    let maybe = TraceEvent { scope: rx.context(), message: Message::MaybeReceived };
    assert_eq!(log.drain(), vec![maybe, maybe]);
}

#[test]
fn mpsc_capacity_one_scenario() {
    let (tx, mut rx) = channel::<&'static str>(1);
    let mut log = TraceLog::new();
    assert_eq!(tx.send("a", &mut log), Sent::Delivered);
    assert_eq!(tx.send("b", &mut log), Sent::Full("b"));
    assert_eq!(rx.recv(&mut log), Polled::Ready(Some("a")));
    assert_eq!(tx.send("b", &mut log), Sent::Delivered);
    assert_eq!(rx.recv(&mut log), Polled::Ready(Some("b")));
    assert_eq!(rx.recv(&mut log), Polled::Pending);
    drop(tx);
    assert_eq!(rx.recv(&mut log), Polled::Ready(None));
}

#[test]
fn mpsc_capacity_one_scenario_with_a_waiting_task() {
    let runtime = tokio::runtime::Builder::new_current_thread().build().unwrap();
    runtime.block_on(async {
        let (tx, mut rx) = channel::<&'static str>(1);
        let mut log = TraceLog::new();
        assert_eq!(tx.send("a", &mut log), Sent::Delivered);
        let second = tx.clone();
        let waiting = tokio::spawn(async move {
            let mut log = TraceLog::new();
            match second.send("b", &mut log) {
                Sent::Delivered => false,
                Sent::Full(v) => second.handle().send(v).await.is_ok(),
                Sent::Closed(_) => false,
            }
        });
        tokio::task::yield_now().await;
        assert!(!waiting.is_finished());
        assert_eq!(rx.recv(&mut log), Polled::Ready(Some("a")));
        assert!(waiting.await.unwrap());
        assert_eq!(rx.recv(&mut log), Polled::Ready(Some("b")));
        assert_eq!(rx.recv(&mut log), Polled::Pending);
        drop(tx);
        let last = rx.handle().recv().await;
        assert_eq!(rx.observe(Polled::Ready(last), &mut log), Polled::Ready(None));
    });
}

#[test]
fn mpsc_handle_is_the_wrapped_handle() {
    let (raw_tx, raw_rx) = tokio::sync::mpsc::channel::<u8>(2);
    let twin = raw_tx.clone();
    let id = ChannelId::from_bits(77);
    let tx = TracedSender::new(raw_tx, id);
    let mut rx = TracedReceiver::new(raw_rx, id);
    assert!(tx.handle().same_channel(&twin));
    assert!(twin.try_send(9).is_ok());
    assert_eq!(rx.handle().try_recv(), Ok(9));
    assert_eq!(rx.identity(), id);
    let mut log = TraceLog::new();
    assert_eq!(tx.send(4, &mut log), Sent::Delivered);
    assert_eq!(rx.handle().try_recv(), Ok(4));
}
