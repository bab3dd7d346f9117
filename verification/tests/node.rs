use std::sync::{Arc, Mutex};

use mojave_transport::error::Error;
use mojave_transport::node::{Node, Progress, Step};
use mojave_transport::transport::{Poll, Transport, TransportError, TransportEvent};
use mojave_transport::transports::TransportMap;
use mojave_transport::Protocol;
use multiaddr::{Multiaddr, PeerId};

/// A transport that accepts everything, or refuses everything.
#[derive(Clone)]
struct MockTransport {
    remote_peer_id: PeerId,
    refuses: bool,
    listen_on_called: Arc<Mutex<bool>>,
}

impl MockTransport {
    fn new(remote_peer_id: PeerId) -> Self {
        Self {
            remote_peer_id,
            refuses: false,
            listen_on_called: Arc::new(Mutex::new(false)),
        }
    }
}

impl Transport for MockTransport {
    type Error = String;
    type Dial = PeerId;
    type ListenerUpgrade = PeerId;

    fn supported_protocols_for_dialing(&self) -> Protocol {
        Protocol::WebTransport
    }

    fn dial(&mut self, address: Multiaddr) -> Result<PeerId, TransportError<String>> {
        if self.refuses {
            return Err(TransportError::MultiaddrNotSupported(address));
        }
        Ok(self.remote_peer_id)
    }

    fn listen_on(&mut self, _address: Multiaddr) -> Result<(), TransportError<String>> {
        *self.listen_on_called.lock().unwrap() = true;
        if self.refuses {
            return Err(TransportError::Other("no".to_string()));
        }
        Ok(())
    }
}

type TestNode = Node<MockTransport, u32>;
type TestProgress = Progress<&'static str, PeerId, String>;

fn addr(text: &str) -> Multiaddr {
    text.parse().unwrap()
}

fn with_transport(transport: MockTransport) -> TestNode {
    let mut transports = TransportMap::new();
    assert!(transports.insert(Protocol::WebTransport, transport).is_none());
    Node::new(PeerId::random(), transports)
}

#[test]
fn test_node_creation() {
    let peer_id = PeerId::random();
    let transports = TransportMap::new();
    let node: TestNode = Node::new(peer_id.clone(), transports);
    assert_eq!(node.peer_id, peer_id);
}

#[test]
fn test_dial_remote_peer() {
    let local_peer_id = PeerId::random();
    let remote_peer_id = PeerId::random();
    let remote_addr: Multiaddr = "/ip4/127.0.0.1/udp/9090/webtransport".parse().unwrap();

    let mock_transport = MockTransport::new(remote_peer_id.clone());
    let mut transports = TransportMap::new();
    transports.insert(Protocol::WebTransport, mock_transport.clone());

    let mut node: TestNode = Node::new(local_peer_id, transports);

    let result = node.dial(remote_peer_id.clone(), remote_addr.clone());
    assert!(result.is_ok());
    assert!(node.peer_manager.outgoing.iter().any(|pending| pending.peer_id == remote_peer_id));
    assert_eq!(node.peer_manager.outgoing.len(), 1);
    assert_eq!(node.peer_manager.outgoing[0].dial, remote_peer_id);
    assert_eq!(node.peer_manager.outgoing[0].address, remote_addr);
    assert_eq!(node.peer_manager.incoming.len(), 0);
}

#[test]
fn test_listen_on_address() {
    let local_peer_id = PeerId::random();
    let listen_addr: Multiaddr = "/ip4/127.0.0.1/udp/9090/webtransport".parse().unwrap();

    let mock_transport = MockTransport::new(PeerId::random());
    let mut transports = TransportMap::new();
    transports.insert(Protocol::WebTransport, mock_transport.clone());

    let mut node: TestNode = Node::new(local_peer_id, transports);

    let result = node.listen(listen_addr);
    assert!(result.is_ok());
    assert!(*mock_transport.listen_on_called.lock().unwrap());
}

#[test]
fn test_handle_transport_event() {
    let local_peer_id = PeerId::random();
    let local_addr: Multiaddr = "/ip4/127.0.0.1/udp/9090/webtransport".parse().unwrap();
    let remote_addr: Multiaddr = "/ip4/127.0.0.1/udp/9091/webtransport".parse().unwrap();

    let mut node: TestNode = Node::new(local_peer_id.clone(), TransportMap::new());

    let remote_peer_id_for_upgrade = PeerId::random();
    let event = TransportEvent::Incoming {
        remote_addr: remote_addr.clone(),
        local_addr: local_addr.clone(),
        upgrade: remote_peer_id_for_upgrade,
    };

    node.handle_transport_event(event);

    assert!(node.peer_manager.incoming.iter().any(|pending| pending.remote_addr == remote_addr));
    assert_eq!(node.peer_manager.incoming.len(), 1);
    assert_eq!(node.peer_manager.incoming[0].local_addr, local_addr);
    assert_eq!(node.peer_manager.incoming[0].upgrade, remote_peer_id_for_upgrade);
    assert_eq!(node.peer_manager.outgoing.len(), 0);
}

#[test]
fn other_transport_events_change_nothing() {
    let mut node: TestNode = Node::new(PeerId::random(), TransportMap::new());
    let address = addr("/ip4/127.0.0.1/udp/9090/webtransport");
    node.handle_transport_event(TransportEvent::ListenAddress { address: address.clone() });
    node.handle_transport_event(TransportEvent::AddressExpired { address });
    node.handle_transport_event(TransportEvent::ListenerError { error: "e".to_string() });
    node.handle_transport_event(TransportEvent::ListenerClosed { reason: Ok(()) });
    node.handle_transport_event(TransportEvent::ListenerClosed { reason: Err("e".to_string()) });
    node.handle_peer_event("connected");
    assert_eq!(node.peer_manager.incoming.len(), 0);
    assert_eq!(node.peer_manager.outgoing.len(), 0);
    assert_eq!(node.pending_events.len(), 0);
}

#[test]
fn an_address_without_a_known_protocol_is_refused() {
    let mut node = with_transport(MockTransport::new(PeerId::random()));
    let address = addr("/ip4/127.0.0.1/tcp/9090");
    match node.dial(PeerId::random(), address.clone()) {
        Err(Error::NoProtocolsInMultiaddr(back)) => assert_eq!(back, address),
        _ => panic!("refused otherwise, or not at all"),
    }
    match node.listen(address.clone()) {
        Err(Error::NoProtocolsInMultiaddr(back)) => assert_eq!(back, address),
        _ => panic!("refused otherwise, or not at all"),
    }
    assert_eq!(node.peer_manager.outgoing.len(), 0);
}

#[test]
fn a_protocol_without_a_transport_is_refused() {
    let mut node: TestNode = Node::new(PeerId::random(), TransportMap::new());
    let address = addr("/ip4/127.0.0.1/udp/9090/webtransport");
    assert!(matches!(
        node.dial(PeerId::random(), address.clone()),
        Err(Error::TransportNotFound(Protocol::WebTransport))
    ));
    assert!(matches!(
        node.listen(address),
        Err(Error::TransportNotFound(Protocol::WebTransport))
    ));
    assert_eq!(node.peer_manager.outgoing.len(), 0);
}

#[test]
fn the_refusal_of_a_transport_is_handed_on() {
    let mut transport = MockTransport::new(PeerId::random());
    transport.refuses = true;
    let mut node = with_transport(transport);
    let address = addr("/ip4/127.0.0.1/udp/9090/webtransport");
    match node.dial(PeerId::random(), address.clone()) {
        Err(Error::Transport(TransportError::MultiaddrNotSupported(back))) => {
            assert_eq!(back, address)
        }
        _ => panic!("refused otherwise, or not at all"),
    }
    match node.listen(address) {
        Err(Error::Transport(TransportError::Other(err))) => assert_eq!(err, "no"),
        _ => panic!("refused otherwise, or not at all"),
    }
    assert_eq!(node.peer_manager.outgoing.len(), 0);
}

#[test]
fn dials_are_waited_for_in_their_order() {
    let mut node = with_transport(MockTransport::new(PeerId::random()));
    let first = PeerId::random();
    let second = PeerId::random();
    assert!(node.dial(first, addr("/ip4/127.0.0.1/udp/1/webtransport")).is_ok());
    assert!(node.dial(second, addr("/ip4/127.0.0.1/udp/2/webtransport")).is_ok());
    let peers: Vec<PeerId> = node.peer_manager.outgoing.iter().map(|o| o.peer_id).collect();
    assert_eq!(peers, vec![first, second]);
}

#[test]
fn a_second_transport_for_a_protocol_replaces_the_first() {
    let first = PeerId::random();
    let second = PeerId::random();
    let mut transports = TransportMap::new();
    assert!(transports.insert(Protocol::WebTransport, MockTransport::new(first)).is_none());
    let before = transports.insert(Protocol::WebTransport, MockTransport::new(second)).unwrap();
    assert_eq!(before.remote_peer_id, first);
    assert_eq!(transports.len(), 1);
    assert_eq!(transports.get_mut(Protocol::WebTransport).unwrap().remote_peer_id, second);
    assert_eq!(transports.at_mut(0).remote_peer_id, second);
}

#[test]
fn an_idle_poll_asks_everyone_once() {
    let mut node = with_transport(MockTransport::new(PeerId::random()));
    let start: TestProgress = Progress::Start;
    assert!(matches!(node.poll_next_event(start), Step::PollPeers));
    let peers: TestProgress = Progress::Peers(Poll::Pending);
    assert!(matches!(node.poll_next_event(peers), Step::PollTransport(0)));
    let transport: TestProgress = Progress::Transport(0, Poll::Pending);
    assert!(matches!(node.poll_next_event(transport), Step::Pending));
}

#[test]
fn a_node_without_transports_sleeps_after_its_peers() {
    let mut node: TestNode = Node::new(PeerId::random(), TransportMap::new());
    let peers: TestProgress = Progress::Peers(Poll::Pending);
    assert!(matches!(node.poll_next_event(peers), Step::Pending));
    let astray: TestProgress = Progress::Transport(usize::MAX, Poll::Pending);
    assert!(matches!(node.poll_next_event(astray), Step::Pending));
}

#[test]
fn what_is_ready_begins_a_new_round() {
    let mut node = with_transport(MockTransport::new(PeerId::random()));
    let peers: TestProgress = Progress::Peers(Poll::Ready("connected"));
    assert!(matches!(node.poll_next_event(peers), Step::PollPeers));
    let transport: TestProgress = Progress::Transport(
        0,
        Poll::Ready(TransportEvent::Incoming {
            remote_addr: addr("/ip4/127.0.0.1/udp/2/webtransport"),
            local_addr: addr("/ip4/127.0.0.1/udp/1/webtransport"),
            upgrade: PeerId::random(),
        }),
    );
    assert!(matches!(node.poll_next_event(transport), Step::PollPeers));
    assert_eq!(node.peer_manager.incoming.len(), 1);
}

#[test]
fn queued_events_are_emitted_first_and_in_order() {
    let mut node = with_transport(MockTransport::new(PeerId::random()));
    node.pending_events.push_back(7);
    node.pending_events.push_back(8);
    let start: TestProgress = Progress::Start;
    assert!(matches!(node.poll_next_event(start), Step::Ready(7)));
    let peers: TestProgress = Progress::Peers(Poll::Ready("connected"));
    assert!(matches!(node.poll_next_event(peers), Step::Ready(8)));
    let start: TestProgress = Progress::Start;
    assert!(matches!(node.poll_next_event(start), Step::PollPeers));
}
