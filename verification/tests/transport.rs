use mojave_transport::transport::{TransportError, TransportEvent};
use multiaddr::Multiaddr;

fn addr() -> Multiaddr {
    "/ip4/127.0.0.1/udp/9090/quic-v1/webtransport".parse().unwrap()
}

#[test]
fn map_changes_other_errors_only() {
    let other: TransportError<u32> = TransportError::Other(20);
    assert!(matches!(other.map(|e| e + 1), TransportError::Other(21)));
    let refused: TransportError<u32> = TransportError::MultiaddrNotSupported(addr());
    match refused.map(|e| e + 1) {
        TransportError::MultiaddrNotSupported(back) => assert_eq!(back, addr()),
        TransportError::Other(_) => panic!("the kind of error changed"),
    }
}

#[test]
fn source_is_the_error_underneath() {
    let other: TransportError<u32> = TransportError::Other(20);
    assert_eq!(other.source(), Some(&20));
    let refused: TransportError<u32> = TransportError::MultiaddrNotSupported(addr());
    assert_eq!(refused.source(), None);
}

#[test]
fn messages_name_the_address_or_the_error() {
    let refused: TransportError<String> = TransportError::MultiaddrNotSupported(addr());
    assert_eq!(
        refused.to_message(),
        "Multiaddr is not supported: /ip4/127.0.0.1/udp/9090/quic-v1/webtransport"
    );
    let other = TransportError::Other("broken".to_string());
    assert_eq!(other.to_message(), "Transport error other error: broken");
}

#[test]
fn errors_can_be_duplicated() {
    let refused: TransportError<u32> = TransportError::MultiaddrNotSupported(addr());
    match refused.clone() {
        TransportError::MultiaddrNotSupported(back) => assert_eq!(back, addr()),
        TransportError::Other(_) => panic!("the kind of error changed"),
    }
}

fn events() -> Vec<TransportEvent<u32, u32>> {
    vec![
        TransportEvent::Incoming { remote_addr: addr(), local_addr: Multiaddr::empty(), upgrade: 1 },
        TransportEvent::ListenAddress { address: addr() },
        TransportEvent::AddressExpired { address: addr() },
        TransportEvent::ListenerError { error: 2 },
        TransportEvent::ListenerClosed { reason: Ok(()) },
        TransportEvent::ListenerClosed { reason: Err(3) },
    ]
}

#[test]
fn map_upgrade_changes_the_upgrade_only() {
    let mapped: Vec<String> =
        events().into_iter().map(|e| format!("{:?}", e.map_upgrade(|u| u + 10))).collect();
    let plain: Vec<String> = events().into_iter().map(|e| format!("{:?}", e)).collect();
    assert_eq!(mapped[0], plain[0].replace("upgrade: 1", "upgrade: 11"));
    assert_ne!(mapped[0], plain[0]);
    assert_eq!(mapped[1..], plain[1..]);
}

#[test]
fn map_err_changes_the_error_only() {
    let mapped: Vec<String> =
        events().into_iter().map(|e| format!("{:?}", e.map_err(|e| e + 10))).collect();
    let plain: Vec<String> = events().into_iter().map(|e| format!("{:?}", e)).collect();
    assert_eq!(mapped[..3], plain[..3]);
    assert_eq!(mapped[3], "ListenerError { error: 12 }");
    assert_eq!(mapped[4], plain[4]);
    assert_eq!(mapped[5], "ListenerClosed { reason: Err(13) }");
}

#[test]
fn the_two_maps_commute() {
    let one: Vec<String> = events()
        .into_iter()
        .map(|e| format!("{:?}", e.map_upgrade(|u| u + 10).map_err(|e| e * 2)))
        .collect();
    let other: Vec<String> = events()
        .into_iter()
        .map(|e| format!("{:?}", e.map_err(|e| e * 2).map_upgrade(|u| u + 10)))
        .collect();
    assert_eq!(one, other);
}
