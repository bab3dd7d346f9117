//! What holds of the WebTransport transport as a whole.

use libp2p_identity::{Keypair, PeerId};
use multiaddr::Multiaddr;
use vstd::prelude::*;

use crate::address::{components_of, Component, IpAddr, SocketAddr};
use crate::transport::{Poll, TransportError, TransportEvent};
use crate::webtransport::{
    law_events_come_in_order, law_every_listener_is_asked, listen_noted, listen_target,
    polled_in_a_row, remote_target, target_of, tcp_target_of, web_created, web_dialed, web_driven,
    web_listened, web_polled, Error, OutboundUpgrade, Progress, Step, WebTransport,
};

verus! {

/// An address says a socket address and a peer exactly if it is the IP address, the
/// UDP port, `/quic-v1` or not, `/webtransport`, and then the peer, if there is one.
pub proof fn law_address_spells_its_target(
    parts: Seq<Component>,
    socket: SocketAddr,
    peer: Option<PeerId>,
)
    ensures
        target_of(parts) == Some((socket, peer)) <==> {
            let ip = match socket.ip {
                IpAddr::V4(ip) => Component::Ip4(ip),
                IpAddr::V6(ip) => Component::Ip6(ip),
            };
            let udp = Component::Udp(socket.port);
            match peer {
                None => {
                    ||| parts == seq![ip, udp, Component::WebTransport]
                    ||| parts == seq![ip, udp, Component::QuicV1, Component::WebTransport]
                },
                Some(id) => {
                    ||| parts == seq![ip, udp, Component::WebTransport, Component::P2p(id)]
                    ||| parts == seq![
                        ip,
                        udp,
                        Component::QuicV1,
                        Component::WebTransport,
                        Component::P2p(id),
                    ]
                },
            }
        },
{
    let ip = match socket.ip {
        IpAddr::V4(ip) => Component::Ip4(ip),
        IpAddr::V6(ip) => Component::Ip6(ip),
    };
    let udp = Component::Udp(socket.port);
    if target_of(parts) == Some((socket, peer)) {
        match peer {
            None => {
                if parts.len() == 3 {
                    assert(parts =~= seq![ip, udp, Component::WebTransport]);
                } else {
                    assert(parts =~= seq![ip, udp, Component::QuicV1, Component::WebTransport]);
                }
            },
            Some(id) => {
                if parts.len() == 4 {
                    assert(parts =~= seq![ip, udp, Component::WebTransport, Component::P2p(id)]);
                } else {
                    assert(parts =~= seq![
                        ip,
                        udp,
                        Component::QuicV1,
                        Component::WebTransport,
                        Component::P2p(id),
                    ]);
                }
            },
        }
    }
}

/// An address is a TCP address for a socket address exactly if it is the IP address
/// and the TCP port, and nothing else.
pub proof fn law_tcp_address_spells_its_target(parts: Seq<Component>, socket: SocketAddr)
    ensures
        tcp_target_of(parts) == Some(socket) <==> parts == seq![
            match socket.ip {
                IpAddr::V4(ip) => Component::Ip4(ip),
                IpAddr::V6(ip) => Component::Ip6(ip),
            },
            Component::Tcp(socket.port),
        ],
{
    if tcp_target_of(parts) == Some(socket) {
        assert(parts =~= seq![
            match socket.ip {
                IpAddr::V4(ip) => Component::Ip4(ip),
                IpAddr::V6(ip) => Component::Ip6(ip),
            },
            Component::Tcp(socket.port),
        ]);
    }
}

/// The address of a remote endpoint is read as the socket address and the peer that
/// it spells, and given back if it spells none.
pub proof fn law_remote_address_is_read<E>(
    address: Multiaddr,
    socket: SocketAddr,
    peer: Option<PeerId>,
)
    ensures
        remote_target::<E>(address) is Err ==> remote_target::<E>(address)->Err_0
            == Error::<E>::InvalidMultiaddr(address),
        remote_target::<E>(address) == Ok::<_, Error<E>>((socket, peer)) <==> {
            let parts = components_of(address);
            let ip = match socket.ip {
                IpAddr::V4(ip) => Component::Ip4(ip),
                IpAddr::V6(ip) => Component::Ip6(ip),
            };
            let udp = Component::Udp(socket.port);
            match peer {
                None => {
                    ||| parts == seq![ip, udp, Component::WebTransport]
                    ||| parts == seq![ip, udp, Component::QuicV1, Component::WebTransport]
                },
                Some(id) => {
                    ||| parts == seq![ip, udp, Component::WebTransport, Component::P2p(id)]
                    ||| parts == seq![
                        ip,
                        udp,
                        Component::QuicV1,
                        Component::WebTransport,
                        Component::P2p(id),
                    ]
                },
            }
        },
{
    law_address_spells_its_target(components_of(address), socket, peer);
}

/// A dial succeeds with a socket address exactly if the address is the IP address
/// and the UDP port of it, `/quic-v1` or not, `/webtransport`, and a peer or none;
/// or, where the fingerprint may be retrieved over TCP, the IP address and the TCP
/// port and nothing else. What comes of it carries the key pair and the permission
/// of the transport. Every other address is given back, and a dial leaves the
/// transport as it is.
pub proof fn law_dial_takes_webtransport_and_tcp<C, W, S, L, U, E>(
    pre: WebTransport<C, W, S, L, U, E>,
    address: Multiaddr,
    post: WebTransport<C, W, S, L, U, E>,
    res: Result<OutboundUpgrade, TransportError<Error<E>>>,
    socket: SocketAddr,
) where S: Fn(W, &C, bool, SocketAddr, Keypair) -> (W, Result<L, Error<E>>)
    requires
        web_dialed(pre, address, post, res),
    ensures
        post == pre,
        match res {
            Ok(dial) => {
                &&& dial.keypair == pre.keypair
                &&& dial.allow_tcp_fingerprint == pre.allow_tcp_fingerprint
            },
            Err(err) => err == TransportError::<Error<E>>::MultiaddrNotSupported(address),
        },
        (res is Ok && res->Ok_0.remote == socket) <==> {
            let parts = components_of(address);
            let ip = match socket.ip {
                IpAddr::V4(ip) => Component::Ip4(ip),
                IpAddr::V6(ip) => Component::Ip6(ip),
            };
            let udp = Component::Udp(socket.port);
            ||| parts == seq![ip, udp, Component::WebTransport]
            ||| parts == seq![ip, udp, Component::QuicV1, Component::WebTransport]
            ||| parts == seq![
                ip,
                udp,
                Component::WebTransport,
                Component::P2p(parts.last()->P2p_0),
            ]
            ||| parts == seq![
                ip,
                udp,
                Component::QuicV1,
                Component::WebTransport,
                Component::P2p(parts.last()->P2p_0),
            ]
            ||| pre.allow_tcp_fingerprint && parts == seq![ip, Component::Tcp(socket.port)]
        },
{
    let parts = components_of(address);
    let ip = match socket.ip {
        IpAddr::V4(ip) => Component::Ip4(ip),
        IpAddr::V6(ip) => Component::Ip6(ip),
    };
    let udp = Component::Udp(socket.port);
    let id = parts.last()->P2p_0;
    law_tcp_address_spells_its_target(parts, socket);
    law_address_spells_its_target(parts, socket, None);
    law_address_spells_its_target(parts, socket, Some(id));
    if res is Ok && res->Ok_0.remote == socket {
        if target_of(parts) == Some((socket, None::<PeerId>)) {
            assert(parts == seq![ip, udp, Component::WebTransport] || parts == seq![
                ip,
                udp,
                Component::QuicV1,
                Component::WebTransport,
            ]);
        } else if target_of(parts) == Some((socket, Some(id))) {
            assert(parts == seq![ip, udp, Component::WebTransport, Component::P2p(id)]
                || parts == seq![
                ip,
                udp,
                Component::QuicV1,
                Component::WebTransport,
                Component::P2p(id),
            ]);
        } else {
            assert(parts == seq![ip, Component::Tcp(socket.port)]);
            assert(pre.allow_tcp_fingerprint);
        }
    }
}

/// Where the fingerprint may not be retrieved over TCP, only a WebTransport address
/// can be dialed.
pub proof fn law_dial_without_tcp<C, W, S, L, U, E>(
    pre: WebTransport<C, W, S, L, U, E>,
    address: Multiaddr,
    post: WebTransport<C, W, S, L, U, E>,
    res: Result<OutboundUpgrade, TransportError<Error<E>>>,
) where S: Fn(W, &C, bool, SocketAddr, Keypair) -> (W, Result<L, Error<E>>)
    requires
        web_dialed(pre, address, post, res),
        res is Ok,
    ensures
        !pre.allow_tcp_fingerprint ==> components_of(address).contains(Component::WebTransport),
{
    let parts = components_of(address);
    law_dial_takes_webtransport_and_tcp(pre, address, post, res, res->Ok_0.remote);
    if parts.len() == 3 {
        assert(parts[2] == Component::WebTransport);
    } else if parts.len() == 4 {
        assert(parts[2] == Component::WebTransport || parts[3] == Component::WebTransport);
    } else if parts.len() == 5 {
        assert(parts[3] == Component::WebTransport);
    }
}

/// A listen on the IP address and the UDP port of a socket address, `/quic-v1` or
/// not, and `/webtransport`, opens a listener there: with the platform, the
/// configuration, the permission and the key pair of the transport, and once. The
/// platform is afterwards what that made of it. A listener joins those that were
/// there, and its address those events that are still to be reported; an error is
/// handed on. All else stays.
pub proof fn law_listen_opens_with_its_own<C, W, S, L, U, E>(
    pre: WebTransport<C, W, S, L, U, E>,
    address: Multiaddr,
    post: WebTransport<C, W, S, L, U, E>,
    res: Result<(), TransportError<Error<E>>>,
    socket: SocketAddr,
    platform: W,
) where S: Fn(W, &C, bool, SocketAddr, Keypair) -> (W, Result<L, Error<E>>)
    requires
        web_listened(pre, address, post, res),
        pre.platform == Some(platform),
        ({
            let ip = match socket.ip {
                IpAddr::V4(ip) => Component::Ip4(ip),
                IpAddr::V6(ip) => Component::Ip6(ip),
            };
            let udp = Component::Udp(socket.port);
            ||| components_of(address) == seq![ip, udp, Component::WebTransport]
            ||| components_of(address) == seq![
                ip,
                udp,
                Component::QuicV1,
                Component::WebTransport,
            ]
        }),
    ensures
        post.platform is Some,
        post.config == pre.config,
        post.allow_tcp_fingerprint == pre.allow_tcp_fingerprint,
        post.keypair == pre.keypair,
        post.open_listener == pre.open_listener,
        match res {
            Ok(()) => {
                &&& post.listeners@.len() == pre.listeners@.len() + 1
                &&& post.listeners@.drop_last() == pre.listeners@
                &&& post.pending_events@ == pre.pending_events@.push(
                    TransportEvent::ListenAddress { address },
                )
                &&& pre.open_listener.ensures(
                    (platform, &pre.config, pre.allow_tcp_fingerprint, socket, pre.keypair),
                    (post.platform->Some_0, Ok(post.listeners@.last())),
                )
            },
            Err(err) => {
                &&& err is Other
                &&& post.listeners == pre.listeners
                &&& post.pending_events == pre.pending_events
                &&& pre.open_listener.ensures(
                    (platform, &pre.config, pre.allow_tcp_fingerprint, socket, pre.keypair),
                    (post.platform->Some_0, Err(err->Other_0)),
                )
            },
        },
{
    law_address_spells_its_target(components_of(address), socket, None);
    let (after, opened) = choose|after: W, opened: Result<L, Error<E>>| #[trigger]
        pre.may_open(socket, after, opened) && listen_noted(
            WebTransport { platform: Some(after), ..pre },
            address,
            opened,
            post,
            res,
        );
    assert(pre.may_open(socket, after, opened));
    if res is Ok {
        assert(post.listeners@.drop_last() =~= pre.listeners@);
        assert(opened == Ok::<L, Error<E>>(post.listeners@.last()));
    }
}

/// A listen is refused, and the address given back, exactly if the address is not
/// an IP address, a UDP port, `/quic-v1` or not, and `/webtransport` at the end. Then
/// the transport stays as it is, the platform included.
pub proof fn law_listen_refuses_the_rest<C, W, S, L, U, E>(
    pre: WebTransport<C, W, S, L, U, E>,
    address: Multiaddr,
    post: WebTransport<C, W, S, L, U, E>,
    res: Result<(), TransportError<Error<E>>>,
) where S: Fn(W, &C, bool, SocketAddr, Keypair) -> (W, Result<L, Error<E>>)
    requires
        web_listened(pre, address, post, res),
    ensures
        ({
            let parts = components_of(address);
            let refused = !((parts[0] is Ip4 || parts[0] is Ip6) && parts[1] is Udp && (
            parts == seq![parts[0], parts[1], Component::WebTransport] || parts == seq![
                parts[0],
                parts[1],
                Component::QuicV1,
                Component::WebTransport,
            ]));
            &&& refused ==> post == pre && res == Err::<(), TransportError<Error<E>>>(
                TransportError::MultiaddrNotSupported(address),
            )
            &&& !refused ==> (res is Err ==> res->Err_0 is Other)
        }),
{
    let parts = components_of(address);
    if let Some(socket) = listen_target(address) {
        law_address_spells_its_target(parts, socket, None);
    }
    if parts == seq![parts[0], parts[1], Component::WebTransport] || parts == seq![
        parts[0],
        parts[1],
        Component::QuicV1,
        Component::WebTransport,
    ] {
        if (parts[0] is Ip4 || parts[0] is Ip6) && parts[1] is Udp {
            let ip = match parts[0] {
                Component::Ip4(ip) => IpAddr::V4(ip),
                Component::Ip6(ip) => IpAddr::V6(ip),
                _ => arbitrary(),
            };
            let socket = SocketAddr { ip, port: parts[1]->Udp_0 };
            law_address_spells_its_target(parts, socket, None);
        }
    }
}

/// Where what comes of opening a listener is settled by what is handed in, a listen
/// comes to just that: for the platform, the configuration, the permission and the
/// key pair of the transport, and the socket address of the address.
pub proof fn law_listen_is_settled<C, W, S, L, U, E>(
    pre: WebTransport<C, W, S, L, U, E>,
    address: Multiaddr,
    post: WebTransport<C, W, S, L, U, E>,
    res: Result<(), TransportError<Error<E>>>,
    socket: SocketAddr,
    platform: W,
    outcome: spec_fn(W, C, bool, SocketAddr, Keypair) -> (W, Result<L, Error<E>>),
) where S: Fn(W, &C, bool, SocketAddr, Keypair) -> (W, Result<L, Error<E>>)
    requires
        web_listened(pre, address, post, res),
        pre.platform == Some(platform),
        ({
            let ip = match socket.ip {
                IpAddr::V4(ip) => Component::Ip4(ip),
                IpAddr::V6(ip) => Component::Ip6(ip),
            };
            let udp = Component::Udp(socket.port);
            ||| components_of(address) == seq![ip, udp, Component::WebTransport]
            ||| components_of(address) == seq![
                ip,
                udp,
                Component::QuicV1,
                Component::WebTransport,
            ]
        }),
        forall|w: W, c: &C, a: bool, s: SocketAddr, k: Keypair, o: (W, Result<L, Error<E>>)|
            #[trigger] pre.open_listener.ensures((w, c, a, s, k), o) ==> o == outcome(w, *c, a, s, k),
    ensures
        ({
            let (after, opened) = outcome(
                platform,
                pre.config,
                pre.allow_tcp_fingerprint,
                socket,
                pre.keypair,
            );
            &&& post.platform == Some(after)
            &&& match opened {
                Ok(listener) => {
                    &&& res == Ok::<(), TransportError<Error<E>>>(())
                    &&& post.listeners@ == pre.listeners@.push(listener)
                },
                Err(err) => {
                    &&& res == Err::<(), TransportError<Error<E>>>(TransportError::Other(err))
                    &&& post.listeners == pre.listeners
                },
            }
        }),
{
    law_listen_opens_with_its_own(pre, address, post, res, socket, platform);
    if res is Ok {
        assert(post.listeners@ =~= pre.listeners@.push(post.listeners@.last()));
        assert(res->Ok_0 == ());
    }
}

/// A listener is opened for the identity of the transport: one that is the key pair
/// it was opened with is the key pair of the transport.
pub proof fn law_listener_has_the_identity<C, W, S, U, E>(
    pre: WebTransport<C, W, S, Keypair, U, E>,
    address: Multiaddr,
    post: WebTransport<C, W, S, Keypair, U, E>,
) where S: Fn(W, &C, bool, SocketAddr, Keypair) -> (W, Result<Keypair, Error<E>>)
    requires
        web_listened(pre, address, post, Ok(())),
        pre.platform is Some,
        forall|w: W, c: &C, a: bool, s: SocketAddr, k: Keypair, after: W, listener: Keypair|
            #[trigger] pre.open_listener.ensures((w, c, a, s, k), (after, Ok(listener)))
                ==> listener == k,
    ensures
        post.listeners@ == pre.listeners@.push(pre.keypair),
{
    let socket = listen_target(address)->Some_0;
    law_address_spells_its_target(components_of(address), socket, None);
    law_listen_opens_with_its_own(
        pre,
        address,
        post,
        Ok(()),
        socket,
        pre.platform->Some_0,
    );
    assert(post.listeners@ =~= pre.listeners@.push(post.listeners@.last()));
}

/// What comes of opening a listener decides the answer of a listen and nothing else
/// does: a listener is kept after those that were there, and its address is to be
/// reported after the events that were queued; an error is answered, and nothing
/// changes.
pub proof fn law_opened_listener_is_kept<C, W, S, L, U, E>(
    pre: WebTransport<C, W, S, L, U, E>,
    address: Multiaddr,
    opened: Result<L, Error<E>>,
    post: WebTransport<C, W, S, L, U, E>,
    res: Result<(), TransportError<Error<E>>>,
) where S: Fn(W, &C, bool, SocketAddr, Keypair) -> (W, Result<L, Error<E>>)
    requires
        listen_noted(pre, address, opened, post, res),
    ensures
        res is Ok <==> opened is Ok,
        post.config == pre.config,
        post.allow_tcp_fingerprint == pre.allow_tcp_fingerprint,
        post.keypair == pre.keypair,
        post.platform == pre.platform,
        post.open_listener == pre.open_listener,
        opened is Ok ==> {
            &&& post.listeners@.len() == pre.listeners@.len() + 1
            &&& post.listeners@.last() == opened->Ok_0
            &&& forall|i: int|
                0 <= i < pre.listeners@.len() ==> #[trigger] post.listeners@[i] == pre.listeners@[i]
            &&& post.pending_events@.len() == pre.pending_events@.len() + 1
            &&& post.pending_events@.last() == TransportEvent::<U, Error<E>>::ListenAddress {
                address,
            }
            &&& forall|i: int|
                0 <= i < pre.pending_events@.len() ==> #[trigger] post.pending_events@[i]
                    == pre.pending_events@[i]
        },
        opened is Err ==> post == pre && res->Err_0 == TransportError::Other(opened->Err_0),
{
}

/// A new transport works with what it was given: its first poll has nothing to
/// report and no listener to ask, and what it dials with is the key pair and the
/// permission it was created with.
pub proof fn law_new_transport_dials_as_given<C, W, S, L, U, E>(
    config: C,
    allow_tcp_fingerprint: bool,
    keypair: Keypair,
    platform: W,
    open_listener: S,
    pre: WebTransport<C, W, S, L, U, E>,
    polled: WebTransport<C, W, S, L, U, E>,
    step: Step<U, E>,
    address: Multiaddr,
    post: WebTransport<C, W, S, L, U, E>,
    dial: OutboundUpgrade,
) where S: Fn(W, &C, bool, SocketAddr, Keypair) -> (W, Result<L, Error<E>>)
    requires
        web_created(config, allow_tcp_fingerprint, keypair, platform, open_listener, pre),
        web_polled(pre, Progress::Start, polled, step),
        web_dialed(polled, address, post, Ok(dial)),
    ensures
        step is Pending,
        dial.keypair == keypair,
        dial.allow_tcp_fingerprint == allow_tcp_fingerprint,
{
}

/// A new transport listens with what it was given: its first listener is opened on
/// the platform, with the configuration, the permission and the key pair that it was
/// created with; it is the only one, and its address is all there is to report.
pub proof fn law_new_transport_listens_as_given<C, W, S, L, U, E>(
    config: C,
    allow_tcp_fingerprint: bool,
    keypair: Keypair,
    platform: W,
    open_listener: S,
    pre: WebTransport<C, W, S, L, U, E>,
    address: Multiaddr,
    post: WebTransport<C, W, S, L, U, E>,
    socket: SocketAddr,
) where S: Fn(W, &C, bool, SocketAddr, Keypair) -> (W, Result<L, Error<E>>)
    requires
        web_created(config, allow_tcp_fingerprint, keypair, platform, open_listener, pre),
        web_listened(pre, address, post, Ok(())),
        components_of(address).len() > 1,
        components_of(address)[0] == match socket.ip {
            IpAddr::V4(ip) => Component::Ip4(ip),
            IpAddr::V6(ip) => Component::Ip6(ip),
        },
        components_of(address)[1] == Component::Udp(socket.port),
    ensures
        post.listeners@.len() == 1,
        post.platform is Some,
        open_listener.ensures(
            (platform, &config, allow_tcp_fingerprint, socket, keypair),
            (post.platform->Some_0, Ok(post.listeners@[0])),
        ),
        post.pending_events@ == seq![TransportEvent::<U, Error<E>>::ListenAddress { address }],
{
    law_listen_refuses_the_rest(pre, address, post, Ok(()));
    law_listen_opens_with_its_own(pre, address, post, Ok(()), socket, platform);
}

/// A poll never closes a listener, nor does it touch anything else but the events
/// that are still to be reported.
pub proof fn law_poll_closes_nothing<C, W, S, L, U, E>(
    pre: WebTransport<C, W, S, L, U, E>,
    progress: Progress<U, E>,
    post: WebTransport<C, W, S, L, U, E>,
    res: Step<U, E>,
) where S: Fn(W, &C, bool, SocketAddr, Keypair) -> (W, Result<L, Error<E>>)
    requires
        web_polled(pre, progress, post, res),
    ensures
        post.listeners == pre.listeners,
        post.config == pre.config,
        post.allow_tcp_fingerprint == pre.allow_tcp_fingerprint,
        post.keypair == pre.keypair,
        post.platform == pre.platform,
        post.open_listener == pre.open_listener,
{
}

/// No event is lost or made up by a poll: what it reports is the event that was
/// first among those queued, which then is queued no longer, or the event that a
/// listener just answered with, and then the queue stays. A poll that reports nothing
/// leaves the queue alone as well.
pub proof fn law_poll_loses_no_event<C, W, S, L, U, E>(
    pre: WebTransport<C, W, S, L, U, E>,
    progress: Progress<U, E>,
    post: WebTransport<C, W, S, L, U, E>,
    res: Step<U, E>,
) where S: Fn(W, &C, bool, SocketAddr, Keypair) -> (W, Result<L, Error<E>>)
    requires
        web_polled(pre, progress, post, res),
    ensures
        match (progress, res) {
            (Progress::Start, Step::Ready(event)) => pre.pending_events@ == seq![event]
                + post.pending_events@,
            (Progress::Start, _) => {
                &&& pre.pending_events@.len() == 0
                &&& post == pre
            },
            (Progress::Listener(_, answer), Step::Ready(event)) => {
                &&& answer == Poll::Ready(Some(event))
                &&& post == pre
            },
            (Progress::Listener(_, answer), _) => {
                &&& !(answer matches Poll::Ready(Some(_)))
                &&& post == pre
            },
        },
{
    if let (Progress::Start, Step::Ready(event)) = (progress, res) {
        assert(pre.pending_events@ =~= seq![event] + post.pending_events@);
    }
}

/// Where a poll reports nothing, it asks for the listener that is next in the walk,
/// and it says that there is nothing exactly if there is no such listener.
pub proof fn law_poll_asks_the_next<C, W, S, L, U, E>(
    pre: WebTransport<C, W, S, L, U, E>,
    progress: Progress<U, E>,
    post: WebTransport<C, W, S, L, U, E>,
    res: Step<U, E>,
) where S: Fn(W, &C, bool, SocketAddr, Keypair) -> (W, Result<L, Error<E>>)
    requires
        web_polled(pre, progress, post, res),
        res !is Ready,
    ensures
        ({
            let next = match progress {
                Progress::Start => 0int,
                Progress::Listener(i, _) => i + 1,
            };
            &&& res is Pending <==> next >= pre.listeners@.len()
            &&& res is PollListener ==> res->PollListener_0 == next
        }),
{
    assert(pre.listeners.len() == pre.listeners@.len());
}

/// Polls in a row close no listener.
pub proof fn law_polls_close_nothing<C, W, S, L, U, E>(
    states: Seq<WebTransport<C, W, S, L, U, E>>,
    steps: Seq<Step<U, E>>,
    k: int,
) where S: Fn(W, &C, bool, SocketAddr, Keypair) -> (W, Result<L, Error<E>>)
    requires
        polled_in_a_row(states, steps),
        0 <= k < states.len(),
    ensures
        states[k].listeners == states[0].listeners,
    decreases k,
{
    if k > 0 {
        law_polls_close_nothing(states, steps, k - 1);
        assert(web_polled(states[k - 1], Progress::Start, states[k - 1 + 1], steps[k - 1]));
        law_poll_closes_nothing(states[k - 1], Progress::Start, states[k], steps[k - 1]);
    }
}

/// Whether listens on `addresses`, one after the other, all succeeded and led through
/// `states`.
pub open spec fn listened_in_a_row<C, W, S, L, U, E>(
    states: Seq<WebTransport<C, W, S, L, U, E>>,
    addresses: Seq<Multiaddr>,
) -> bool where S: Fn(W, &C, bool, SocketAddr, Keypair) -> (W, Result<L, Error<E>>) {
    &&& states.len() == addresses.len() + 1
    &&& forall|k: int|
        0 <= k < addresses.len() ==> web_listened(
            states[k],
            #[trigger] addresses[k],
            states[k + 1],
            Ok(()),
        )
}

/// Every listen that succeeds counts: after any number of them there are so many
/// listeners more, those from before come first, and the addresses are to be reported
/// in the order of the calls.
pub proof fn law_every_listen_counts<C, W, S, L, U, E>(
    states: Seq<WebTransport<C, W, S, L, U, E>>,
    addresses: Seq<Multiaddr>,
    n: int,
) where S: Fn(W, &C, bool, SocketAddr, Keypair) -> (W, Result<L, Error<E>>)
    requires
        listened_in_a_row(states, addresses),
        0 <= n <= addresses.len(),
    ensures
        states[n].listeners@.len() == states[0].listeners@.len() + n,
        states[n].listeners@.take(states[0].listeners@.len() as int) == states[0].listeners@,
        states[n].pending_events@ == states[0].pending_events@ + Seq::new(
            n as nat,
            |k: int| TransportEvent::<U, Error<E>>::ListenAddress { address: addresses[k] },
        ),
    decreases n,
{
    let old_listeners = states[0].listeners@;
    let reports = |m: int|
        Seq::new(
            m as nat,
            |k: int| TransportEvent::<U, Error<E>>::ListenAddress { address: addresses[k] },
        );
    if n == 0 {
        assert(old_listeners.take(old_listeners.len() as int) =~= old_listeners);
        assert(states[0].pending_events@ =~= states[0].pending_events@ + reports(0));
    } else {
        let m = n - 1;
        law_every_listen_counts(states, addresses, m);
        assert(web_listened(states[m], addresses[m], states[m + 1], Ok(())));
        let listener = states[n].listeners@.last();
        assert(states[n].listeners@ =~= states[m].listeners@.push(listener));
        assert(states[n].listeners@.take(old_listeners.len() as int) =~= states[m].listeners@.take(
            old_listeners.len() as int,
        ));
        assert(states[n].pending_events@ =~= states[0].pending_events@ + reports(n));
    }
}

/// What was opened is asked: after any number of listens that succeeded and the polls
/// that report what is queued, among it each of the addresses, a poll in which no
/// listener has anything to report asks for every listener, those from before and
/// those that were opened, once and in the order in which they were opened.
pub proof fn law_opened_listeners_are_asked<C, W, S, L, U, E>(
    listens: Seq<WebTransport<C, W, S, L, U, E>>,
    addresses: Seq<Multiaddr>,
    states: Seq<WebTransport<C, W, S, L, U, E>>,
    reported: Seq<Step<U, E>>,
    pre: Seq<WebTransport<C, W, S, L, U, E>>,
    progress: Seq<Progress<U, E>>,
    post: Seq<WebTransport<C, W, S, L, U, E>>,
    asked: Seq<Step<U, E>>,
) where S: Fn(W, &C, bool, SocketAddr, Keypair) -> (W, Result<L, Error<E>>)
    requires
        listened_in_a_row(listens, addresses),
        polled_in_a_row(states, reported),
        states[0] == listens.last(),
        reported.len() == states[0].pending_events@.len(),
        web_driven(pre, progress, post, asked),
        pre[0] == states.last(),
        asked.last() is Pending,
    ensures
        forall|k: int|
            0 <= k < addresses.len() ==> reported[#[trigger] (listens[0].pending_events@.len() + k)]
                == Step::<U, E>::Ready(TransportEvent::ListenAddress { address: addresses[k] }),
        asked.len() == listens[0].listeners@.len() + addresses.len() + 1,
        forall|k: int|
            0 <= k < asked.len() - 1 ==> #[trigger] asked[k] == Step::<U, E>::PollListener(
                k as usize,
            ),
{
    let n = addresses.len() as int;
    law_every_listen_counts(listens, addresses, n);
    law_events_come_in_order(states, reported, reported.len());
    law_polls_close_nothing(states, reported, states.len() - 1);
    law_every_listener_is_asked(pre, progress, post, asked, asked.len() - 1);
    assert(pre[0].listeners.len() == listens[n].listeners@.len());
    assert forall|k: int| 0 <= k < asked.len() - 1 implies #[trigger] asked[k] == Step::<
        U,
        E,
    >::PollListener(k as usize) by {
        law_every_listener_is_asked(pre, progress, post, asked, k);
        assert(asked[k + 1 - 1] is PollListener);
    }
}

} // verus!
