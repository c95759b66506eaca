use bevy_prototype_networked_event::{
    after_receive, EventId, NetworkCore, NetworkedEvent, ReceiveError, ReceiveStep, ReceiverMap,
    ReceiverQueue, RecvOutcome, RegistryError, TokenStatus, TokenStatusMap,
};

struct Ping;

#[test]
fn duplicate_registration_is_refused() {
    let mut map = ReceiverMap::new();
    assert!(map.add_event_type(EventId::new(3)).is_ok());
    assert_eq!(
        map.add_event_type(EventId::new(3)).unwrap_err(),
        RegistryError::Duplicate(EventId::new(3))
    );
    assert!(map.add_event_type(EventId::new(4)).is_ok());
    assert_eq!(map.lookup(EventId::new(3)), Some(0));
    assert_eq!(map.lookup(EventId::new(4)), Some(1));
    assert_eq!(map.lookup(EventId::new(5)), None);
}

#[test]
fn route_delivers_to_the_channel_of_the_tag() {
    let mut map = ReceiverMap::new();
    let a = ReceiverQueue::<Ping>::new(map.add_event_type(EventId::new(1)).unwrap());
    let b = ReceiverQueue::<Ping>::new(map.add_event_type(EventId::new(2)).unwrap());
    let bytes = NetworkedEvent::new(EventId::new(2), vec![5, 6]).encode();
    assert_eq!(map.route(&bytes), Ok(EventId::new(2)));
    assert!(a.drain().is_empty());
    let got = b.drain();
    assert_eq!(got.len(), 1);
    assert_eq!(got[0].id, EventId::new(2));
    assert_eq!(got[0].data, vec![5, 6]);
    assert!(b.drain().is_empty());
}

#[test]
fn route_reports_unregistered_tag() {
    let mut map = ReceiverMap::new();
    let _q = map.add_event_type(EventId::new(1)).unwrap();
    let bytes = NetworkedEvent::new(EventId::new(9), vec![]).encode();
    assert_eq!(
        map.route(&bytes),
        Err(ReceiveError::UnregisteredTag(EventId::new(9)))
    );
}

#[test]
fn route_reports_malformed_envelope() {
    let mut map = ReceiverMap::new();
    let _q = map.add_event_type(EventId::new(1)).unwrap();
    let bytes = NetworkedEvent::new(EventId::new(1), vec![1, 2, 3]).encode();
    assert_eq!(map.route(&bytes[..10]), Err(ReceiveError::Malformed));
    assert_eq!(map.route(&bytes[..bytes.len() - 1]), Err(ReceiveError::Malformed));
}

#[test]
fn route_reports_closed_channel() {
    let mut map = ReceiverMap::new();
    let q = map.add_event_type(EventId::new(1)).unwrap();
    drop(q);
    let bytes = NetworkedEvent::new(EventId::new(1), vec![]).encode();
    assert_eq!(
        map.route(&bytes),
        Err(ReceiveError::ChannelClosed(EventId::new(1)))
    );
}

#[test]
fn receive_loop_goes_on_after_bad_datagrams() {
    let mut map = ReceiverMap::new();
    let q = ReceiverQueue::<Ping>::new(map.add_event_type(EventId::new(1)).unwrap());
    let status = TokenStatus::new();
    status.set_readable(true);
    let good = NetworkedEvent::new(EventId::new(1), vec![42]).encode();
    let unknown = NetworkedEvent::new(EventId::new(2), vec![42]).encode();
    let outcomes = vec![
        RecvOutcome::Datagram(unknown),
        RecvOutcome::Datagram(vec![1, 2, 3]),
        RecvOutcome::Datagram(good),
        RecvOutcome::WouldBlock,
    ];
    let mut steps = Vec::new();
    for o in outcomes {
        if !status.is_readable() {
            break;
        }
        let step = after_receive(&map, &status, o);
        steps.push(step);
        if !step.reads_on() {
            break;
        }
    }
    assert_eq!(
        steps,
        vec![
            ReceiveStep::Dropped(ReceiveError::UnregisteredTag(EventId::new(2))),
            ReceiveStep::Dropped(ReceiveError::Malformed),
            ReceiveStep::Delivered(EventId::new(1)),
            ReceiveStep::Stop,
        ]
    );
    assert!(!status.is_readable());
    let got = q.drain();
    assert_eq!(got.len(), 1);
    assert_eq!(got[0].data, vec![42]);
}

#[test]
fn failed_read_is_fatal() {
    let map = ReceiverMap::new();
    let status = TokenStatus::new();
    status.set_readable(true);
    assert_eq!(after_receive(&map, &status, RecvOutcome::Failed), ReceiveStep::Fatal);
    assert!(!ReceiveStep::Fatal.reads_on());
    assert!(status.is_readable());
}

#[test]
fn token_status_flags_start_cleared_and_follow_stores() {
    let s = TokenStatus::new();
    assert!(!s.is_readable());
    assert!(!s.is_writable());
    s.set_readable(true);
    assert!(s.is_readable());
    assert!(!s.is_writable());
    s.set_writable(true);
    s.set_readable(false);
    assert!(!s.is_readable());
    assert!(s.is_writable());
}

#[test]
fn poller_updates_are_seen_by_the_next_read() {
    let mut map = TokenStatusMap::new();
    assert_eq!(map.register(), 0);
    assert_eq!(map.register(), 1);
    assert!(map.apply(1, true, false));
    assert!(!map.apply(2, true, true));
    let s = map.get(1).unwrap();
    assert!(s.is_readable());
    assert!(!s.is_writable());
    assert!(!map.get(0).unwrap().is_readable());
    assert!(map.apply(1, false, true));
    assert!(!map.get(1).unwrap().is_readable());
    assert!(map.get(1).unwrap().is_writable());
    assert!(map.get(2).is_none());
}

#[test]
fn sockets_get_fresh_tokens() {
    let mut core = NetworkCore::new();
    let a = core.add_socket::<()>(1);
    let b = core.add_socket::<()>(3);
    assert_eq!(a.token, 0);
    assert_eq!(b.token, 1);
    assert!(core.statuses.get(1).is_some());
    assert!(core.statuses.get(2).is_none());
    assert!(core.add_event_type(EventId::new(7)).is_ok());
    assert!(core.add_event_type(EventId::new(7)).is_err());
}
