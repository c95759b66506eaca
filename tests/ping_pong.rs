use bevy_prototype_networked_event::{
    after_receive, Dispatch, DispatchStep, EventId, NetworkCore, Networked, NetworkedEvent,
    NetworkedEventPlugins, Receive, ReceiveStep, ReceiverQueue, RecvOutcome, SendOutcome,
    SocketPlugin, SocketSetup, TokenStatus,
};

struct Ping;
struct Pong;

impl Networked for Ping {
    fn event_id() -> EventId {
        EventId::new(1)
    }
}

impl Networked for Pong {
    fn event_id() -> EventId {
        EventId::new(2)
    }
}

struct Peer {
    core: NetworkCore,
    socket: SocketSetup<()>,
    status: TokenStatus,
    pings: ReceiverQueue<Ping>,
    pongs: ReceiverQueue<Pong>,
}

fn peer() -> Peer {
    let mut core = NetworkCore::new();
    let socket = core.add_socket::<()>(1);
    let pings = ReceiverQueue::new(core.add_event_type(Ping::event_id()).unwrap());
    let pongs = ReceiverQueue::new(core.add_event_type(Pong::event_id()).unwrap());
    let status = TokenStatus::new();
    status.set_writable(true);
    status.set_readable(true);
    Peer { core, socket, status, pings, pongs }
}

/// Runs the dispatch cycle, with a transport that delivers every datagram.
fn dispatch(p: &mut Peer) -> Vec<Vec<u8>> {
    p.socket.queue.pull(&p.socket.outbound);
    let mut wire = Vec::new();
    while let Some((bytes, _peer)) = p.socket.queue.next_send(p.status.is_writable()) {
        wire.push(bytes.clone());
        assert_eq!(p.socket.queue.after_send(&p.status, SendOutcome::Sent), DispatchStep::Continue);
    }
    wire
}

fn receive(p: &Peer, wire: Vec<Vec<u8>>) {
    for d in wire {
        let step = after_receive(&p.core.receivers, &p.status, RecvOutcome::Datagram(d));
        assert!(matches!(step, ReceiveStep::Delivered(_)));
    }
}

#[test]
fn ping_pong_round_trip() {
    let mut a = peer();
    let mut b = peer();
    let ping = Dispatch(Ping);
    let _ = ping.0;
    a.socket
        .dispatcher
        .dispatch(NetworkedEvent::new(Ping::event_id(), vec![]))
        .unwrap();
    let to_b = dispatch(&mut a);
    assert_eq!(to_b.len(), 1);
    receive(&b, to_b);
    let pings: Vec<Receive<Ping>> = b.pings.drain().into_iter().map(|_| Receive(Ping)).collect();
    assert_eq!(pings.len(), 1);
    assert!(b.pongs.drain().is_empty());
    for _ in &pings {
        b.socket
            .dispatcher
            .dispatch(NetworkedEvent::new(Pong::event_id(), vec![]))
            .unwrap();
    }
    let to_a = dispatch(&mut b);
    assert_eq!(to_a.len(), 1);
    receive(&a, to_a);
    assert_eq!(a.pongs.drain().len(), 1);
    assert!(a.pings.drain().is_empty());
    assert!(a.pongs.drain().is_empty());
}

#[test]
fn socket_configuration_is_kept() {
    let s = SocketPlugin::new("127.0.0.1:4000".to_string(), vec!["127.0.0.1:4001".to_string()]);
    assert_eq!(s.addr(), "127.0.0.1:4000");
    assert_eq!(s.peer_addrs(), &vec!["127.0.0.1:4001".to_string()]);
    let g = NetworkedEventPlugins::<Ping>::new(
        "0.0.0.0:5000".to_string(),
        vec!["10.0.0.1:5000".to_string(), "10.0.0.2:5000".to_string()],
    );
    let s = g.socket();
    assert_eq!(s.addr(), "0.0.0.0:5000");
    assert_eq!(s.peer_addrs().len(), 2);
}
