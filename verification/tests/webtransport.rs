use libp2p_identity::Keypair;
use mojave_transport::address::{Component, IpAddr, SocketAddr};
use mojave_transport::error::Error as NodeError;
use mojave_transport::node::{
    answer_listen, extract_protocol_from_components, extract_protocol_from_multiaddr, Node,
};
use mojave_transport::transport::{Poll, Transport, TransportError, TransportEvent};
use mojave_transport::transports::TransportMap;
use mojave_transport::webtransport::{
    components_to_socketaddr, components_to_tcp_socketaddr, multiaddr_to_socketaddr,
    remote_ma_to_socketaddr, Error, Progress, Step, WebTransport,
};
use mojave_transport::Protocol;
use multiaddr::{Multiaddr, PeerId};

const PEER: &str = "12D3KooWPjceQrSwdWXPyLLeABRXmuqt69Rg3sBYbU1Nft9HyQ6X";

fn addr(text: &str) -> Multiaddr {
    text.parse().unwrap()
}

fn read(text: &str) -> Option<(SocketAddr, Option<PeerId>)> {
    multiaddr_to_socketaddr(&addr(text))
}

fn socket(ip: IpAddr, port: u16) -> SocketAddr {
    SocketAddr::new(ip, port)
}

#[test]
fn addresses_of_the_expected_form_are_read() {
    let local = socket(IpAddr::V4(0x7f00_0001), 9090);
    assert_eq!(read("/ip4/127.0.0.1/udp/9090/webtransport"), Some((local, None)));
    assert_eq!(read("/ip4/127.0.0.1/udp/9090/quic-v1/webtransport"), Some((local, None)));
    assert_eq!(
        read("/ip6/2001:db8::1/udp/443/quic-v1/webtransport"),
        Some((socket(IpAddr::V6(0x2001_0db8_0000_0000_0000_0000_0000_0001), 443), None))
    );
    let peer: PeerId = PEER.parse().unwrap();
    assert_eq!(
        read(&format!("/ip4/10.0.0.255/udp/1/quic-v1/webtransport/p2p/{}", PEER)),
        Some((socket(IpAddr::V4(0x0a00_00ff), 1), Some(peer)))
    );
}

#[test]
fn addresses_of_another_form_are_not_read() {
    assert_eq!(multiaddr_to_socketaddr(&Multiaddr::empty()), None);
    assert_eq!(read("/ip4/127.0.0.1"), None);
    assert_eq!(read("/ip4/127.0.0.1/udp/9090"), None);
    assert_eq!(read("/ip4/127.0.0.1/udp/9090/quic-v1"), None);
    assert_eq!(read("/ip4/127.0.0.1/tcp/9090/webtransport"), None);
    assert_eq!(read("/ip4/127.0.0.1/udp/9090/quic/webtransport"), None);
    assert_eq!(read("/ip4/127.0.0.1/udp/9090/quic-v1/quic-v1/webtransport"), None);
    assert_eq!(read("/ip4/127.0.0.1/quic-v1/udp/9090/webtransport"), None);
    assert_eq!(read("/ip4/127.0.0.1/webtransport/udp/9090"), None);
    assert_eq!(read("/udp/9090/ip4/127.0.0.1/webtransport"), None);
    assert_eq!(read("/ip4/127.0.0.1/ip4/127.0.0.1/udp/9090/webtransport"), None);
    assert_eq!(read("/ip4/127.0.0.1/ip6/::1/udp/9090/webtransport"), None);
    assert_eq!(read("/ip4/127.0.0.1/udp/9090/udp/9090/webtransport"), None);
    assert_eq!(read("/ip4/127.0.0.1/udp/9090/webtransport/webtransport"), None);
    assert_eq!(read("/ip4/127.0.0.1/udp/9090/webtransport/quic-v1"), None);
    assert_eq!(read("/ip4/127.0.0.1/udp/9090/webtransport/ip4/127.0.0.1"), None);
    assert_eq!(read("/dns4/example.org/udp/9090/webtransport"), None);
    assert_eq!(read(&format!("/ip4/127.0.0.1/udp/9090/p2p/{}", PEER)), None);
    assert_eq!(read(&format!("/ip4/127.0.0.1/udp/9090/p2p/{}/webtransport", PEER)), None);
    assert_eq!(
        read(&format!("/ip4/127.0.0.1/udp/9090/webtransport/p2p/{}/p2p/{}", PEER, PEER)),
        None
    );
    assert_eq!(
        read(&format!("/ip4/127.0.0.1/udp/9090/webtransport/p2p/{}/quic-v1", PEER)),
        None
    );
}

#[test]
fn components_are_read_like_addresses() {
    let peer = PeerId::random();
    let mut parts = vec![
        Component::Ip6(1),
        Component::Udp(7),
        Component::QuicV1,
        Component::WebTransport,
        Component::P2p(peer),
    ];
    assert_eq!(
        components_to_socketaddr(&parts),
        Some((socket(IpAddr::V6(1), 7), Some(peer)))
    );
    parts.push(Component::Other);
    assert_eq!(components_to_socketaddr(&parts), None);
    assert_eq!(components_to_socketaddr(&Vec::new()), None);
}

#[test]
fn an_unreadable_remote_address_is_given_back() {
    let good = addr("/ip4/127.0.0.1/udp/9090/webtransport");
    let read: Result<_, Error<()>> = remote_ma_to_socketaddr(&good);
    assert_eq!(read.unwrap(), (socket(IpAddr::V4(0x7f00_0001), 9090), None));
    let bad = addr("/ip4/127.0.0.1/tcp/9090");
    let read: Result<_, Error<()>> = remote_ma_to_socketaddr(&bad);
    match read {
        Err(Error::InvalidMultiaddr(back)) => assert_eq!(back, bad),
        _ => panic!("the address was read"),
    }
}

#[test]
fn addresses_are_routed_by_their_webtransport_component() {
    let routed = |text: &str| {
        let res: Result<Protocol, NodeError<()>> = extract_protocol_from_multiaddr(&addr(text));
        res.ok()
    };
    assert_eq!(
        routed("/ip4/127.0.0.1/udp/9090/quic-v1/webtransport"),
        Some(Protocol::WebTransport)
    );
    assert_eq!(routed("/webtransport/ip4/127.0.0.1"), Some(Protocol::WebTransport));
    assert_eq!(routed("/ip4/127.0.0.1/udp/9090/quic-v1"), None);
    assert_eq!(extract_protocol_from_components(&vec![Component::Other]), None);
    assert_eq!(
        extract_protocol_from_components(&vec![Component::Other, Component::WebTransport]),
        Some(Protocol::WebTransport)
    );
    assert!(matches!(answer_listen::<u8>(Ok(())), Ok(())));
    assert!(matches!(
        answer_listen(Err(TransportError::Other(4))),
        Err(NodeError::Transport(TransportError::Other(4)))
    ));
}

#[test]
fn tcp_addresses_are_an_ip_address_and_a_port() {
    assert_eq!(
        components_to_tcp_socketaddr(&vec![Component::Ip4(3), Component::Tcp(80)]),
        Some(socket(IpAddr::V4(3), 80))
    );
    assert_eq!(
        components_to_tcp_socketaddr(&vec![Component::Ip6(3), Component::Tcp(80)]),
        Some(socket(IpAddr::V6(3), 80))
    );
    assert_eq!(components_to_tcp_socketaddr(&vec![Component::Ip4(3), Component::Udp(80)]), None);
    assert_eq!(components_to_tcp_socketaddr(&vec![Component::Tcp(80), Component::Ip4(3)]), None);
    assert_eq!(components_to_tcp_socketaddr(&vec![Component::Ip4(3)]), None);
    let longer = vec![Component::Ip4(3), Component::Tcp(80), Component::Other];
    assert_eq!(components_to_tcp_socketaddr(&longer), None);
}

/// What a listener was opened with.
type Opened = (String, bool, SocketAddr);

/// Opens a listener that only says what it was opened with, and counts the
/// attempts; port 1 is taken.
fn open(
    attempts: u32,
    config: &String,
    allow_tcp_fingerprint: bool,
    socket: SocketAddr,
    _keypair: Keypair,
) -> (u32, Result<Opened, Error<u32>>) {
    let opened = if socket.port == 1 {
        Err(Error::Platform(98))
    } else {
        Ok((config.clone(), allow_tcp_fingerprint, socket))
    };
    (attempts + 1, opened)
}

type Open = fn(u32, &String, bool, SocketAddr, Keypair) -> (u32, Result<Opened, Error<u32>>);

fn transport(
    allow_tcp_fingerprint: bool,
    keypair: Keypair,
) -> WebTransport<String, u32, Open, Opened, u8, u32> {
    WebTransport::new("quic".to_string(), allow_tcp_fingerprint, keypair, 0, open as Open)
}

#[test]
fn dialing_hands_out_what_the_handshake_needs() {
    let keypair = Keypair::generate_ed25519();
    let mut transport = transport(true, keypair.clone());
    assert_eq!(transport.supported_protocols_for_dialing(), Protocol::WebTransport);
    let dial = transport
        .dial(addr(&format!("/ip4/127.0.0.1/udp/9090/webtransport/p2p/{}", PEER)))
        .unwrap_or_else(|_| panic!("refused"));
    assert_eq!(dial.remote, socket(IpAddr::V4(0x7f00_0001), 9090));
    assert!(dial.allow_tcp_fingerprint);
    assert_eq!(dial.keypair.public(), keypair.public());
    assert_eq!(transport.platform, Some(0));
}

#[test]
fn a_tcp_address_can_be_dialed_where_that_is_allowed() {
    let address = addr("/ip4/127.0.0.1/tcp/9090");
    let mut allowing = transport(true, Keypair::generate_ed25519());
    let dial = allowing.dial(address.clone()).unwrap_or_else(|_| panic!("refused"));
    assert_eq!(dial.remote, socket(IpAddr::V4(0x7f00_0001), 9090));
    assert!(dial.allow_tcp_fingerprint);

    let mut other = transport(false, Keypair::generate_ed25519());
    match other.dial(address.clone()) {
        Err(TransportError::MultiaddrNotSupported(back)) => assert_eq!(back, address),
        _ => panic!("refused otherwise, or not at all"),
    }
}

#[test]
fn an_address_that_cannot_be_dialed_is_given_back() {
    for allow_tcp_fingerprint in [false, true] {
        let mut transport = transport(allow_tcp_fingerprint, Keypair::generate_ed25519());
        for text in ["/ip4/127.0.0.1/udp/9090", "/ip4/127.0.0.1/tcp/9090/ws", "/webtransport"] {
            match transport.dial(addr(text)) {
                Err(TransportError::MultiaddrNotSupported(back)) => assert_eq!(back, addr(text)),
                _ => panic!("refused otherwise, or not at all"),
            }
        }
    }
}

#[test]
fn a_listen_opens_a_listener_and_is_reported() {
    let mut transport = transport(false, Keypair::generate_ed25519());
    assert!(matches!(transport.poll(Progress::Start), Step::Pending));

    let first = addr("/ip4/127.0.0.1/udp/9090/quic-v1/webtransport");
    let second = addr("/ip6/::1/udp/9091/webtransport");
    let one = ("quic".to_string(), false, socket(IpAddr::V4(0x7f00_0001), 9090));
    let two = ("quic".to_string(), false, socket(IpAddr::V6(1), 9091));
    assert!(transport.listen_on(first.clone()).is_ok());
    assert_eq!(transport.listeners, vec![one.clone()]);
    assert_eq!(transport.platform, Some(1));
    assert!(transport.listen_on(second.clone()).is_ok());
    assert_eq!(transport.listeners, vec![one, two]);
    assert_eq!(transport.platform, Some(2));

    for expected in [first, second] {
        match transport.poll(Progress::Start) {
            Step::Ready(TransportEvent::ListenAddress { address }) => assert_eq!(address, expected),
            _ => panic!("the address was not reported"),
        }
    }
    assert!(matches!(transport.poll(Progress::Start), Step::PollListener(0)));
}

#[test]
fn listeners_are_asked_in_their_turn() {
    let mut transport = transport(false, Keypair::generate_ed25519());
    for port in 2..5 {
        assert!(transport.listen_on(addr(&format!("/ip4/127.0.0.1/udp/{}/webtransport", port))).is_ok());
        assert!(matches!(
            transport.poll(Progress::Start),
            Step::Ready(TransportEvent::ListenAddress { .. })
        ));
    }
    assert!(matches!(transport.poll(Progress::Start), Step::PollListener(0)));
    assert!(matches!(transport.poll(Progress::Listener(0, Poll::Pending)), Step::PollListener(1)));
    assert!(matches!(
        transport.poll(Progress::Listener(1, Poll::Ready(None))),
        Step::PollListener(2)
    ));
    let closed = TransportEvent::ListenerClosed { reason: Ok(()) };
    assert!(matches!(
        transport.poll(Progress::Listener(2, Poll::Ready(Some(closed)))),
        Step::Ready(TransportEvent::ListenerClosed { reason: Ok(()) })
    ));
    assert!(matches!(transport.poll(Progress::Listener(2, Poll::Pending)), Step::Pending));
    assert!(matches!(transport.poll(Progress::Listener(2, Poll::Ready(None))), Step::Pending));
    assert!(matches!(transport.poll(Progress::Listener(usize::MAX, Poll::Pending)), Step::Pending));
    assert_eq!(transport.listeners.len(), 3);
}

#[test]
fn a_refused_listen_changes_nothing() {
    let mut transport = transport(true, Keypair::generate_ed25519());
    let refused = vec![
        addr("/ip4/127.0.0.1/tcp/9090"),
        addr(&format!("/ip4/127.0.0.1/udp/9090/webtransport/p2p/{}", PEER)),
    ];
    for address in refused {
        match transport.listen_on(address.clone()) {
            Err(TransportError::MultiaddrNotSupported(back)) => assert_eq!(back, address),
            _ => panic!("refused otherwise, or not at all"),
        }
    }
    assert_eq!(transport.platform, Some(0));
    assert!(matches!(
        transport.listen_on(addr("/ip4/127.0.0.1/udp/1/webtransport")),
        Err(TransportError::Other(Error::Platform(98)))
    ));
    assert_eq!(transport.platform, Some(1));
    assert!(transport.listeners.is_empty());
    assert_eq!(transport.pending_events.len(), 0);
}

#[test]
fn an_outcome_of_opening_is_noted() {
    let mut transport = transport(false, Keypair::generate_ed25519());
    let address = addr("/ip4/127.0.0.1/udp/5/webtransport");
    let there = socket(IpAddr::V4(0x7f00_0001), 5);
    assert!(transport.listener_opened(address.clone(), Err(Error::Platform(3))).is_err());
    assert!(transport.listeners.is_empty());
    assert!(transport
        .listener_opened(address, Ok(("other".to_string(), true, there)))
        .is_ok());
    assert_eq!(transport.listeners, vec![("other".to_string(), true, there)]);
    assert_eq!(transport.pending_events.len(), 1);
}

#[test]
fn an_unconfigured_transport_has_an_identity_of_its_own() {
    let open = |_: (), _: &(), _: bool, at: SocketAddr, _: Keypair| -> (
        (),
        Result<SocketAddr, Error<u32>>,
    ) { ((), Ok(at)) };
    let mut one: WebTransport<(), (), _, _, (), u32> =
        WebTransport::new_unconfigured(true, (), open);
    let mut other: WebTransport<(), (), _, _, (), u32> =
        WebTransport::new_unconfigured(false, (), open);
    let address = addr("/ip4/127.0.0.1/udp/5/webtransport");
    let first = one.dial(address.clone()).unwrap_or_else(|_| panic!("refused"));
    let second = other.dial(address).unwrap_or_else(|_| panic!("refused"));
    assert!(first.allow_tcp_fingerprint);
    assert!(!second.allow_tcp_fingerprint);
    assert_ne!(first.keypair.public(), second.keypair.public());
}

#[test]
fn a_node_dials_and_listens_over_webtransport() {
    let mut transports = TransportMap::new();
    transports.insert(
        Protocol::WebTransport,
        transport(false, Keypair::generate_ed25519()),
    );
    let mut node: Node<_, u8> = Node::new(PeerId::random(), transports);

    let peer = PeerId::random();
    let address = addr("/ip4/127.0.0.1/udp/9090/webtransport");
    assert!(node.dial(peer, address.clone()).is_ok());
    assert_eq!(node.peer_manager.outgoing[0].peer_id, peer);
    assert_eq!(
        node.peer_manager.outgoing[0].dial.remote,
        socket(IpAddr::V4(0x7f00_0001), 9090)
    );

    let astray = addr("/webtransport");
    assert!(matches!(
        node.dial(peer, astray.clone()),
        Err(NodeError::Transport(TransportError::MultiaddrNotSupported(_)))
    ));
    assert!(matches!(
        node.listen(astray),
        Err(NodeError::Transport(TransportError::MultiaddrNotSupported(_)))
    ));
    assert_eq!(node.peer_manager.outgoing.len(), 1);

    assert!(node.listen(address.clone()).is_ok());
    match node.transports.at_mut(0).poll(Progress::Start) {
        Step::Ready(TransportEvent::ListenAddress { address: at }) => assert_eq!(at, address),
        _ => panic!("the address was not reported"),
    }
}

#[test]
fn what_can_be_listened_on_can_be_dialed() {
    let mut transport = transport(false, Keypair::generate_ed25519());
    let address = addr("/ip4/192.168.1.2/udp/4433/quic-v1/webtransport");
    assert!(transport.listen_on(address.clone()).is_ok());
    let dial = transport.dial(address).unwrap_or_else(|_| panic!("refused"));
    assert_eq!(transport.listeners[0].2, dial.remote);
}
