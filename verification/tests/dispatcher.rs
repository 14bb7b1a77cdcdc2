use gameserver::dispatcher::{dispatch, dispatch_all, settle, DispatchOutcome};
use gameserver::event::{Event, EventKind};
use gameserver::mapping::{ConnectionMapping, SendStatus};
use std::sync::Arc;
use tokio::sync::mpsc::channel;

fn response(uid: Option<u64>, payload: &[u8]) -> Arc<Event> {
    Arc::new(Event::new(uid, EventKind::Response, payload.to_vec()))
}

fn request(uid: Option<u64>, payload: &[u8]) -> Arc<Event> {
    Arc::new(Event::new(uid, EventKind::Request, payload.to_vec()))
}

#[test]
fn event_without_destination_is_dropped_and_reported() {
    let (tx, mut rx) = channel(4);
    let mut mapping = ConnectionMapping::new();
    mapping.insert(1, tx);
    let outcome = dispatch(&mut mapping, &response(None, b"lost"));
    assert_eq!(outcome, DispatchOutcome::MissingDestination);
    assert!(outcome.is_error());
    assert_eq!(mapping.len(), 1);
    assert!(mapping.contains(1));
    assert!(rx.try_recv().is_err());
}

#[test]
fn event_for_unknown_destination_is_dropped_and_reported() {
    let (tx, mut rx) = channel(4);
    let mut mapping = ConnectionMapping::new();
    mapping.insert(1, tx);
    let outcome = dispatch(&mut mapping, &response(Some(2), b"stale"));
    assert_eq!(outcome, DispatchOutcome::UnknownDestination(2));
    assert!(outcome.is_error());
    assert_eq!(mapping.len(), 1);
    assert!(mapping.contains(1));
    assert!(!mapping.contains(2));
    assert!(rx.try_recv().is_err());
}

#[test]
fn event_for_unknown_destination_in_empty_registry() {
    let mut mapping = ConnectionMapping::new();
    assert_eq!(
        dispatch(&mut mapping, &response(Some(u64::MAX), b"")),
        DispatchOutcome::UnknownDestination(u64::MAX)
    );
    assert_eq!(mapping.len(), 0);
}

#[test]
fn delivered_event_reaches_the_receiver_unchanged() {
    let (tx, mut rx) = channel(4);
    let mut mapping = ConnectionMapping::new();
    mapping.insert(7, tx);
    let event = response(Some(7), b"hello");
    let outcome = dispatch(&mut mapping, &event);
    assert_eq!(outcome, DispatchOutcome::Delivered(7));
    assert!(!outcome.is_error());
    assert!(mapping.contains(7));
    let received = rx.try_recv().unwrap();
    assert_eq!(*received, *event);
    assert_eq!(received.uid(), Some(7));
    assert_eq!(received.payload, b"hello".to_vec());
    assert!(Arc::ptr_eq(&received, &event));
    assert!(rx.try_recv().is_err());
}

#[test]
fn events_for_one_destination_arrive_in_order() {
    let (tx, mut rx) = channel(4);
    let mut mapping = ConnectionMapping::new();
    mapping.insert(7, tx);
    dispatch(&mut mapping, &response(Some(7), b"first"));
    dispatch(&mut mapping, &response(Some(7), b"second"));
    assert_eq!(rx.try_recv().unwrap().payload, b"first".to_vec());
    assert_eq!(rx.try_recv().unwrap().payload, b"second".to_vec());
}

#[test]
fn full_channel_drops_the_event_and_keeps_the_connection() {
    let (tx, mut rx) = channel(1);
    let mut mapping = ConnectionMapping::new();
    mapping.insert(3, tx);
    assert_eq!(dispatch(&mut mapping, &response(Some(3), b"one")), DispatchOutcome::Delivered(3));
    let outcome = dispatch(&mut mapping, &response(Some(3), b"two"));
    assert_eq!(outcome, DispatchOutcome::ChannelFull(3));
    assert!(outcome.is_error());
    assert!(mapping.contains(3));
    assert_eq!(mapping.len(), 1);
    assert_eq!(rx.try_recv().unwrap().payload, b"one".to_vec());
    assert!(rx.try_recv().is_err());
    assert_eq!(dispatch(&mut mapping, &response(Some(3), b"three")), DispatchOutcome::Delivered(3));
    assert_eq!(rx.try_recv().unwrap().payload, b"three".to_vec());
}

#[test]
fn closed_channel_drops_the_event_and_forgets_the_connection() {
    let (tx, rx) = channel(4);
    let (other_tx, _other_rx) = channel(4);
    let mut mapping = ConnectionMapping::new();
    mapping.insert(3, tx);
    mapping.insert(4, other_tx);
    drop(rx);
    let outcome = dispatch(&mut mapping, &response(Some(3), b"late"));
    assert_eq!(outcome, DispatchOutcome::ChannelClosed(3));
    assert!(outcome.is_error());
    assert!(!mapping.contains(3));
    assert!(mapping.contains(4));
    assert_eq!(mapping.len(), 1);
    assert_eq!(
        dispatch(&mut mapping, &response(Some(3), b"later")),
        DispatchOutcome::UnknownDestination(3)
    );
    assert_eq!(mapping.len(), 1);
}

#[test]
fn explicitly_closed_receiver_counts_as_closed() {
    let (tx, mut rx) = channel::<Arc<Event>>(4);
    let mut mapping = ConnectionMapping::new();
    mapping.insert(3, tx);
    rx.close();
    assert_eq!(dispatch(&mut mapping, &response(Some(3), b"")), DispatchOutcome::ChannelClosed(3));
    assert!(!mapping.contains(3));
}

#[test]
fn settle_acts_on_each_status() {
    let (tx, _rx) = channel(1);
    let mut mapping = ConnectionMapping::new();
    mapping.insert(5, tx);
    assert_eq!(settle(&mut mapping, 5, SendStatus::Enqueued), DispatchOutcome::Delivered(5));
    assert!(mapping.contains(5));
    assert_eq!(settle(&mut mapping, 5, SendStatus::Full), DispatchOutcome::ChannelFull(5));
    assert!(mapping.contains(5));
    assert_eq!(settle(&mut mapping, 5, SendStatus::Closed), DispatchOutcome::ChannelClosed(5));
    assert!(!mapping.contains(5));
    assert_eq!(settle(&mut mapping, 5, SendStatus::Closed), DispatchOutcome::ChannelClosed(5));
    assert_eq!(mapping.len(), 0);
}

#[test]
fn pass_reports_on_outbound_events_only_and_in_order() {
    let (tx1, mut rx1) = channel(1);
    let (tx2, rx2) = channel(4);
    let mut mapping = ConnectionMapping::new();
    mapping.insert(1, tx1);
    mapping.insert(2, tx2);
    drop(rx2);
    let events = vec![
        response(Some(1), b"a"),
        request(Some(1), b"inbound"),
        response(None, b"b"),
        response(Some(1), b"c"),
        response(Some(2), b"d"),
        request(None, b"inbound"),
        response(Some(2), b"e"),
        response(Some(9), b"f"),
    ];
    let outcomes = dispatch_all(&mut mapping, &events);
    assert_eq!(
        outcomes,
        vec![
            DispatchOutcome::Delivered(1),
            DispatchOutcome::MissingDestination,
            DispatchOutcome::ChannelFull(1),
            DispatchOutcome::ChannelClosed(2),
            DispatchOutcome::UnknownDestination(2),
            DispatchOutcome::UnknownDestination(9),
        ]
    );
    assert!(mapping.contains(1));
    assert!(!mapping.contains(2));
    assert_eq!(mapping.len(), 1);
    assert_eq!(rx1.try_recv().unwrap().payload, b"a".to_vec());
    assert!(rx1.try_recv().is_err());
}

#[test]
fn pass_over_nothing_reports_nothing() {
    let mut mapping = ConnectionMapping::new();
    assert_eq!(dispatch_all(&mut mapping, &Vec::new()), Vec::new());
    assert_eq!(dispatch_all(&mut mapping, &vec![request(Some(1), b"x")]), Vec::new());
    assert_eq!(mapping.len(), 0);
}

#[test]
fn registry_insert_lookup_remove() {
    let (tx1, mut rx1) = channel::<Arc<Event>>(2);
    let (tx2, mut rx2) = channel::<Arc<Event>>(2);
    let mut mapping = ConnectionMapping::new();
    assert!(mapping.lookup(1).is_none());
    assert!(mapping.insert(1, tx1).is_none());
    assert!(mapping.lookup(1).is_some());
    assert!(mapping.lookup(2).is_none());
    let replaced = mapping.insert(1, tx2).unwrap();
    assert_eq!(mapping.len(), 1);
    replaced.try_send(response(Some(1), b"old")).unwrap();
    mapping.lookup(1).unwrap().try_send(response(Some(1), b"new")).unwrap();
    assert_eq!(rx1.try_recv().unwrap().payload, b"old".to_vec());
    assert_eq!(rx2.try_recv().unwrap().payload, b"new".to_vec());
    assert!(mapping.remove(2).is_none());
    assert!(mapping.remove(1).is_some());
    assert!(mapping.remove(1).is_none());
    assert_eq!(mapping.len(), 0);
}

#[test]
fn event_kind_decides_what_is_outbound() {
    assert!(response(Some(1), b"").is_outbound());
    assert!(!request(Some(1), b"").is_outbound());
    assert_eq!(request(None, b"").uid(), None);
}
