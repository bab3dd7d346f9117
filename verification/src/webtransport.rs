//! The WebTransport transport: which addresses it dials and listens on, and the
//! order in which its events come out.

use std::collections::VecDeque;

use libp2p_identity::{Keypair, PeerId};
use multiaddr::Multiaddr;
use vstd::prelude::*;

use crate::address::{components, components_of, Component, IpAddr, SocketAddr};
use crate::protocol::Protocol;
use crate::transport::{Poll, Transport, TransportError, TransportEvent};

verus! {

/// `libp2p_identity::Keypair`, the cryptographic identity of the local peer. It
/// is only carried.
#[verifier::external_type_specification]
#[verifier::external_body]
pub struct ExKeypair(libp2p_identity::Keypair);

/// `Keypair::clone`. Trusted: it duplicates the key pair.
pub assume_specification[ <Keypair as Clone>::clone ](keypair: &Keypair) -> (res: Keypair)
    ensures
        res == *keypair,
;

/// The components of a WebTransport address: the IP address and the UDP port of
/// `socket`, `/quic-v1` where `quic` says so, `/webtransport`, and the peer, where
/// there is one.
pub open spec fn webtransport_form(socket: SocketAddr, quic: bool, peer: Option<PeerId>) -> Seq<
    Component,
> {
    seq![socket.ip.component(), Component::Udp(socket.port)] + (if quic {
        seq![Component::QuicV1]
    } else {
        seq![]
    }) + seq![Component::WebTransport] + match peer {
        Some(id) => seq![Component::P2p(id)],
        None => seq![],
    }
}

/// Whether `parts` are the components of a WebTransport address for `socket`
/// and `peer`.
pub open spec fn reads_as(
    parts: Seq<Component>,
    socket: SocketAddr,
    peer: Option<PeerId>,
) -> bool {
    exists|quic: bool| parts == #[trigger] webtransport_form(socket, quic, peer)
}

/// The IP address that a component spells, if it spells one.
pub open spec fn ip_of(part: Component) -> Option<IpAddr> {
    match part {
        Component::Ip4(ip) => Some(IpAddr::V4(ip)),
        Component::Ip6(ip) => Some(IpAddr::V6(ip)),
        _ => None,
    }
}

/// The peer that the components end with, if they do.
pub open spec fn peer_at_end(parts: Seq<Component>) -> Option<PeerId> {
    if parts.len() > 0 {
        match parts.last() {
            Component::P2p(id) => Some(id),
            _ => None,
        }
    } else {
        None
    }
}

/// The components without the peer that they end with.
pub open spec fn without_peer(parts: Seq<Component>) -> Seq<Component> {
    if peer_at_end(parts) is Some {
        parts.drop_last()
    } else {
        parts
    }
}

/// The socket address that a WebTransport address without a peer names, or `None`
/// where the components are not those of one: an IP address, a UDP port,
/// `/webtransport` last, and at most one `/quic-v1` in between.
pub open spec fn socket_of(parts: Seq<Component>) -> Option<SocketAddr> {
    if 3 <= parts.len() <= 4 && ip_of(parts[0]) is Some && parts[1] is Udp && (parts.len() == 4
        ==> parts[2] is QuicV1) && parts.last() is WebTransport {
        Some(SocketAddr { ip: ip_of(parts[0])->Some_0, port: parts[1]->Udp_0 })
    } else {
        None
    }
}

/// What a WebTransport address says: the socket address and, where there is one,
/// the peer. `None` where the components are not those of a WebTransport address.
pub open spec fn target_of(parts: Seq<Component>) -> Option<(SocketAddr, Option<PeerId>)> {
    match socket_of(without_peer(parts)) {
        Some(socket) => Some((socket, peer_at_end(parts))),
        None => None,
    }
}

/// The socket address that a TCP address names: an IP address and a TCP port, and
/// nothing else. `None` where the components are not those of a TCP address.
pub open spec fn tcp_target_of(parts: Seq<Component>) -> Option<SocketAddr> {
    if parts.len() == 2 && ip_of(parts[0]) is Some && parts[1] is Tcp {
        Some(SocketAddr { ip: ip_of(parts[0])->Some_0, port: parts[1]->Tcp_0 })
    } else {
        None
    }
}

/// The socket address to dial for an address with these components: that of a
/// WebTransport address or, where the fingerprint may be retrieved over TCP, that
/// of a TCP address.
pub open spec fn dial_target(parts: Seq<Component>, allow_tcp_fingerprint: bool) -> Option<
    SocketAddr,
> {
    match target_of(parts) {
        Some((socket, _)) => Some(socket),
        None => if allow_tcp_fingerprint {
            tcp_target_of(parts)
        } else {
            None
        },
    }
}

/// The socket address to listen on for `address`: that of a WebTransport address
/// that names no peer.
pub open spec fn listen_target(address: Multiaddr) -> Option<SocketAddr> {
    match target_of(components_of(address)) {
        Some((socket, None)) => Some(socket),
        _ => None,
    }
}

/// What stands where in a WebTransport address.
proof fn lemma_form_shape(socket: SocketAddr, quic: bool, peer: Option<PeerId>)
    ensures
        ({
            let form = webtransport_form(socket, quic, peer);
            let q = if quic {
                1int
            } else {
                0
            };
            &&& form.len() == 3 + q + (if peer is Some { 1int } else { 0 })
            &&& form[0] == socket.ip.component()
            &&& form[1] == Component::Udp(socket.port)
            &&& quic ==> form[2] == Component::QuicV1
            &&& form[2 + q] == Component::WebTransport
            &&& peer is Some ==> form[3 + q] == Component::P2p(peer->Some_0)
        }),
{
}

/// A WebTransport address says one thing only: its components determine the
/// socket address, whether `/quic-v1` is there, and the peer.
pub proof fn law_form_is_unambiguous(
    socket1: SocketAddr,
    quic1: bool,
    peer1: Option<PeerId>,
    socket2: SocketAddr,
    quic2: bool,
    peer2: Option<PeerId>,
)
    requires
        webtransport_form(socket1, quic1, peer1) == webtransport_form(socket2, quic2, peer2),
    ensures
        socket1 == socket2,
        quic1 == quic2,
        peer1 == peer2,
{
    lemma_form_shape(socket1, quic1, peer1);
    lemma_form_shape(socket2, quic2, peer2);
}

/// Reading undoes writing: the components of a WebTransport address say what
/// they were made of, and nothing else reads so.
pub proof fn law_target_reads_form(
    parts: Seq<Component>,
    socket: SocketAddr,
    peer: Option<PeerId>,
)
    ensures
        target_of(parts) == Some((socket, peer)) <==> reads_as(parts, socket, peer),
{
    if reads_as(parts, socket, peer) {
        let quic = choose|quic: bool| parts == #[trigger] webtransport_form(socket, quic, peer);
        lemma_form_shape(socket, quic, peer);
    }
    if target_of(parts) == Some((socket, peer)) {
        let quic = without_peer(parts).len() == 4;
        lemma_form_shape(socket, quic, peer);
        assert(parts =~= webtransport_form(socket, quic, peer));
    }
}

/// Where a reader of a WebTransport address stands: what it has seen so far.
struct Reading {
    /// The IP address.
    ip: Option<IpAddr>,
    /// The UDP port.
    port: Option<u16>,
    /// Whether `/quic-v1` came by.
    quic_seen: bool,
    /// Whether `/webtransport` came by.
    webtransport_seen: bool,
    /// The peer.
    peer_id: Option<PeerId>,
}

/// Whether the first `i` components of `parts` are a beginning of a
/// WebTransport address, of which `at` holds what was read.
spec fn read_so_far(parts: Seq<Component>, i: int, at: Reading) -> bool {
    let q = if at.quic_seen {
        1int
    } else {
        0
    };
    &&& 0 <= i <= parts.len()
    &&& match at.ip {
        None => i == 0 && at.port is None,
        Some(ip) => i > 0 && parts[0] == ip.component(),
    }
    &&& match at.port {
        None => i < 2 && !at.quic_seen && !at.webtransport_seen,
        Some(port) => at.ip is Some && i >= 2 && parts[1] == Component::Udp(port),
    }
    &&& at.quic_seen ==> parts[2] == Component::QuicV1
    &&& if at.webtransport_seen {
        &&& i == 3 + q + (if at.peer_id is Some { 1int } else { 0 })
        &&& parts[2 + q] == Component::WebTransport
        &&& at.peer_id is Some ==> parts[3 + q] == Component::P2p(at.peer_id->Some_0)
    } else {
        &&& at.peer_id is None
        &&& at.port is Some ==> i == 2 + q
    }
}

/// Whether a WebTransport address may go on with `part`.
spec fn may_follow(at: Reading, part: Component) -> bool {
    match part {
        Component::Ip4(_) | Component::Ip6(_) => at.ip is None,
        Component::Udp(_) => at.ip is Some && at.port is None,
        Component::QuicV1 => at.port is Some && !at.quic_seen && !at.webtransport_seen,
        Component::WebTransport => at.port is Some && !at.webtransport_seen,
        Component::P2p(_) => at.webtransport_seen && at.peer_id is None,
        Component::Tcp(_) | Component::Other => false,
    }
}

/// Components that begin like a WebTransport address and then do not go on like
/// one, or stop before `/webtransport`, are no WebTransport address.
proof fn lemma_no_form(parts: Seq<Component>, i: int, at: Reading)
    requires
        read_so_far(parts, i, at),
        if i < parts.len() {
            !may_follow(at, parts[i])
        } else {
            !at.webtransport_seen
        },
    ensures
        target_of(parts) is None,
{
}

/// Reads the components of a WebTransport address.
///
/// Expected are, in this order: an IP address, a UDP port, `/quic-v1`, which may
/// be missing, `/webtransport`, and, where there is one, the peer. Everything else
/// is answered with `None`.
pub fn components_to_socketaddr(parts: &Vec<Component>) -> (res: Option<
    (SocketAddr, Option<PeerId>),
>)
    ensures
        res == target_of(parts@),
{
    let mut ip: Option<IpAddr> = None;
    let mut port: Option<u16> = None;
    let mut peer_id: Option<PeerId> = None;
    let mut quic_seen: bool = false;
    let mut webtransport_seen: bool = false;
    let mut i: usize = 0;
    while i < parts.len()
        invariant
            i <= parts.len(),
            read_so_far(
                parts@,
                i as int,
                (Reading { ip, port, quic_seen, webtransport_seen, peer_id }),
            ),
        decreases parts.len() - i,
    {
        let ghost at = Reading { ip, port, quic_seen, webtransport_seen, peer_id };
        proof {
            if !may_follow(at, parts@[i as int]) {
                lemma_no_form(parts@, i as int, at);
            }
        }
        match parts[i] {
            Component::Ip4(ip_addr) => {
                if ip.is_some() || port.is_some() || webtransport_seen || peer_id.is_some() {
                    return None;
                }
                ip = Some(IpAddr::V4(ip_addr));
            },
            Component::Ip6(ip_addr) => {
                if ip.is_some() || port.is_some() || webtransport_seen || peer_id.is_some() {
                    return None;
                }
                ip = Some(IpAddr::V6(ip_addr));
            },
            Component::Udp(p) => {
                if ip.is_none() || port.is_some() || webtransport_seen || peer_id.is_some() {
                    return None;
                }
                port = Some(p);
            },
            Component::WebTransport => {
                if ip.is_none() || port.is_none() || webtransport_seen || peer_id.is_some() {
                    return None;
                }
                webtransport_seen = true;
            },
            Component::P2p(id) => {
                if !webtransport_seen || peer_id.is_some() {
                    return None;
                }
                peer_id = Some(id);
            },
            Component::QuicV1 => {
                if ip.is_none() || port.is_none() || quic_seen || webtransport_seen
                    || peer_id.is_some() {
                    return None;
                }
                quic_seen = true;
            },
            Component::Tcp(_) | Component::Other => {
                return None;
            },
        }
        i += 1;
    }
    let ghost at = Reading { ip, port, quic_seen, webtransport_seen, peer_id };
    match (ip, port) {
        (Some(ip), Some(port)) if webtransport_seen => {
            Some((SocketAddr::new(ip, port), peer_id))
        },
        _ => {
            proof {
                lemma_no_form(parts@, i as int, at);
            }
            None
        },
    }
}

/// Reads the components of a TCP address: an IP address and a TCP port, and
/// nothing else.
pub fn components_to_tcp_socketaddr(parts: &Vec<Component>) -> (res: Option<SocketAddr>)
    ensures
        res == tcp_target_of(parts@),
{
    if parts.len() != 2 {
        return None;
    }
    match (parts[0], parts[1]) {
        (Component::Ip4(ip), Component::Tcp(port)) => Some(SocketAddr::new(IpAddr::V4(ip), port)),
        (Component::Ip6(ip), Component::Tcp(port)) => Some(SocketAddr::new(IpAddr::V6(ip), port)),
        _ => None,
    }
}

/// Reads a WebTransport address: the socket address that it names and, where it
/// names one, the peer.
pub fn multiaddr_to_socketaddr(addr: &Multiaddr) -> (res: Option<(SocketAddr, Option<PeerId>)>)
    ensures
        res == target_of(components_of(*addr)),
{
    components_to_socketaddr(&components(addr))
}

/// What can go wrong with a WebTransport connection.
#[derive(Debug)]
pub enum Error<E> {
    /// The address is not that of a WebTransport endpoint.
    ///
    /// Contains back the same address.
    InvalidMultiaddr(Multiaddr),
    /// An error of the platform underneath.
    Platform(E),
}

/// What the address of a remote WebTransport endpoint says; an address that is none
/// is given back.
pub open spec fn remote_target<E>(ma: Multiaddr) -> Result<
    (SocketAddr, Option<PeerId>),
    Error<E>,
> {
    match target_of(components_of(ma)) {
        Some(target) => Ok(target),
        None => Err(Error::InvalidMultiaddr(ma)),
    }
}

/// Reads the address of a remote WebTransport endpoint.
pub fn remote_ma_to_socketaddr<E>(ma: &Multiaddr) -> (res: Result<
    (SocketAddr, Option<PeerId>),
    Error<E>,
>)
    ensures
        res == remote_target::<E>(*ma),
{
    match multiaddr_to_socketaddr(ma) {
        Some(target) => Ok(target),
        None => Err(Error::InvalidMultiaddr(ma.clone())),
    }
}

/// An outgoing connection that is ready to be established: what the handshake
/// with the remote endpoint is to be run with.
pub struct OutboundUpgrade {
    /// Where the remote endpoint is, or where its fingerprint is to be retrieved.
    pub remote: SocketAddr,
    /// Whether the fingerprint of the endpoint may be retrieved over TCP.
    pub allow_tcp_fingerprint: bool,
    /// The local identity.
    pub keypair: Keypair,
}

/// A [`Transport`] that uses WebTransport.
///
/// `C` is the configuration of the QUIC endpoint. `W` is the platform underneath,
/// on which `S` opens a listener of type `L`: it takes the platform and gives it
/// back as it is afterwards. `U` is the upgrade of an incoming connection, and `E`
/// is what can go wrong underneath.
#[verifier::reject_recursive_types(C)]
#[verifier::reject_recursive_types(W)]
#[verifier::reject_recursive_types(L)]
#[verifier::reject_recursive_types(E)]
pub struct WebTransport<C, W, S, L, U, E> where
    S: Fn(W, &C, bool, SocketAddr, Keypair) -> (W, Result<L, Error<E>>),
 {
    /// The configuration of the QUIC endpoint.
    pub config: C,
    /// Whether a TCP address may be dialed to retrieve the fingerprint of a
    /// WebTransport endpoint.
    pub allow_tcp_fingerprint: bool,
    /// The events that are still to be reported.
    pub pending_events: VecDeque<TransportEvent<U, Error<E>>>,
    /// The local identity, for securing the transport.
    pub keypair: Keypair,
    /// The active listeners for incoming connections, in the order in which they
    /// were opened; none if the transport is not currently listening.
    pub listeners: Vec<L>,
    /// The platform; `None` only while a listener is being opened.
    pub platform: Option<W>,
    /// How a listener is opened.
    pub open_listener: S,
}

/// Whether `open_listener` can be called with whatever it is given.
pub open spec fn callable<C, W, S, L, E>(open_listener: S) -> bool where
    S: Fn(W, &C, bool, SocketAddr, Keypair) -> (W, Result<L, Error<E>>),
 {
    forall|platform: W, config: &C, allow: bool, socket: SocketAddr, keypair: Keypair| #[trigger]
        open_listener.requires((platform, config, allow, socket, keypair))
}

impl<C, W, S, L, U, E> WebTransport<C, W, S, L, U, E> where
    S: Fn(W, &C, bool, SocketAddr, Keypair) -> (W, Result<L, Error<E>>),
 {
    /// A listener can be opened.
    pub open spec fn can_open(self) -> bool {
        &&& self.platform is Some
        &&& callable::<C, W, S, L, E>(self.open_listener)
    }

    /// Whether opening a listener on `socket`, once, may turn the platform into
    /// `platform` with the outcome `opened`.
    pub open spec fn may_open(
        self,
        socket: SocketAddr,
        platform: W,
        opened: Result<L, Error<E>>,
    ) -> bool {
        self.open_listener.ensures(
            (
                self.platform->Some_0,
                &self.config,
                self.allow_tcp_fingerprint,
                socket,
                self.keypair,
            ),
            (platform, opened),
        )
    }

    /// The step by which the walk over the listeners goes on at the place `i`.
    pub open spec fn walk_from(self, i: int) -> Step<U, E> {
        if i < self.listeners.len() {
            Step::PollListener(i as usize)
        } else {
            Step::Pending
        }
    }

    /// Creates a transport that neither listens nor has anything to report.
    ///
    /// # Parameters
    /// - `config`: the configuration of the QUIC endpoint.
    /// - `allow_tcp_fingerprint`: whether a TCP address may be dialed to retrieve
    ///   the certificate fingerprint of a WebTransport server.
    /// - `keypair`: the local identity, for securing the transport.
    /// - `platform`: the platform underneath.
    /// - `open_listener`: opens a listener on a socket address.
    pub fn new(
        config: C,
        allow_tcp_fingerprint: bool,
        keypair: Keypair,
        platform: W,
        open_listener: S,
    ) -> (res: Self)
        requires
            callable::<C, W, S, L, E>(open_listener),
        ensures
            res.can_open(),
            res.wf(),
            web_created(
                config,
                allow_tcp_fingerprint,
                keypair,
                platform,
                open_listener,
                res,
            ),
    {
        WebTransport {
            config,
            allow_tcp_fingerprint,
            pending_events: VecDeque::new(),
            keypair,
            listeners: Vec::new(),
            platform: Some(platform),
            open_listener,
        }
    }

    /// Takes note of an attempt to listen on `address` that came out as `opened`:
    /// a listener joins the active ones and the address is to be reported; an
    /// error is handed on, and nothing changes.
    pub fn listener_opened(&mut self, address: Multiaddr, opened: Result<L, Error<E>>) -> (res:
        Result<(), TransportError<Error<E>>>)
        ensures
            final(self).wf() == old(self).wf(),
            listen_noted(*old(self), address, opened, *final(self), res),
    {
        match opened {
            Ok(listener) => {
                self.pending_events.push_back(TransportEvent::ListenAddress { address });
                self.listeners.push(listener);
                Ok(())
            },
            Err(err) => Err(TransportError::Other(err)),
        }
    }

    /// Asks the transport for its next event.
    ///
    /// Events that were queued come first, in the order in which they were
    /// queued. Only when none is left are the listeners to be polled, one after
    /// the other, and their answers to be handed in, until one has something to
    /// report. A listener that has nothing to report yet, or has ended, is passed
    /// over.
    pub fn poll(&mut self, progress: Progress<U, E>) -> (res: Step<U, E>)
        ensures
            final(self).wf() == old(self).wf(),
            web_polled(*old(self), progress, *final(self), res),
    {
        match progress {
            Progress::Start => {
                if self.pending_events.len() > 0 {
                    if let Some(event) = self.pending_events.pop_front() {
                        return Step::Ready(event);
                    }
                }
                if self.listeners.len() > 0 {
                    Step::PollListener(0)
                } else {
                    Step::Pending
                }
            },
            Progress::Listener(_, Poll::Ready(Some(event))) => Step::Ready(event),
            Progress::Listener(i, Poll::Ready(None)) | Progress::Listener(i, Poll::Pending) => {
                if i < self.listeners.len() && i + 1 < self.listeners.len() {
                    Step::PollListener(i + 1)
                } else {
                    Step::Pending
                }
            },
        }
    }
}

/// Whether `res` is a transport made of just these, which neither listens nor has
/// anything to report.
pub open spec fn web_created<C, W, S, L, U, E>(
    config: C,
    allow_tcp_fingerprint: bool,
    keypair: Keypair,
    platform: W,
    open_listener: S,
    res: WebTransport<C, W, S, L, U, E>,
) -> bool where S: Fn(W, &C, bool, SocketAddr, Keypair) -> (W, Result<L, Error<E>>) {
    &&& res.config == config
    &&& res.allow_tcp_fingerprint == allow_tcp_fingerprint
    &&& res.pending_events@ == Seq::<TransportEvent<U, Error<E>>>::empty()
    &&& res.keypair == keypair
    &&& res.listeners@ == Seq::<L>::empty()
    &&& res.platform == Some(platform)
    &&& res.open_listener == open_listener
}

/// How far a poll of a [`WebTransport`] has come.
pub enum Progress<U, E> {
    /// It begins.
    Start,
    /// The listener at that place of the walk was polled, and this is its answer.
    Listener(usize, Poll<Option<TransportEvent<U, Error<E>>>>),
}

/// What a poll of a [`WebTransport`] comes to.
pub enum Step<U, E> {
    /// An event to report.
    Ready(TransportEvent<U, Error<E>>),
    /// The listener at that place of the walk is to be polled.
    PollListener(usize),
    /// There is nothing to report yet.
    Pending,
}

/// Whether a poll that has come as far as `progress` says leads from `pre` to
/// `post` with the step `res`.
pub open spec fn web_polled<C, W, S, L, U, E>(
    pre: WebTransport<C, W, S, L, U, E>,
    progress: Progress<U, E>,
    post: WebTransport<C, W, S, L, U, E>,
    res: Step<U, E>,
) -> bool where S: Fn(W, &C, bool, SocketAddr, Keypair) -> (W, Result<L, Error<E>>) {
    match progress {
        Progress::Start => if pre.pending_events@.len() > 0 {
            &&& res == Step::<U, E>::Ready(pre.pending_events@.first())
            &&& post.pending_events@ == pre.pending_events@.drop_first()
            &&& post == (WebTransport { pending_events: post.pending_events, ..pre })
        } else {
            &&& res == pre.walk_from(0)
            &&& post == pre
        },
        Progress::Listener(_, Poll::Ready(Some(event))) => {
            &&& res == Step::<U, E>::Ready(event)
            &&& post == pre
        },
        Progress::Listener(i, Poll::Ready(None)) | Progress::Listener(i, Poll::Pending) => {
            &&& res == pre.walk_from(i + 1)
            &&& post == pre
        },
    }
}

impl<W, S, L, U, E> WebTransport<(), W, S, L, U, E> where
    S: Fn(W, &(), bool, SocketAddr, Keypair) -> (W, Result<L, Error<E>>),
 {
    /// Creates a transport for an environment that configures the QUIC endpoint
    /// itself, such as a browser. The local identity is made up on the spot; which
    /// one it is, is left to chance.
    pub fn new_unconfigured(allow_tcp_fingerprint: bool, platform: W, open_listener: S) -> (res:
        Self)
        requires
            callable::<(), W, S, L, E>(open_listener),
        ensures
            res.can_open(),
            res.wf(),
            web_created(
                (),
                allow_tcp_fingerprint,
                res.keypair,
                platform,
                open_listener,
                res,
            ),
    {
        WebTransport::new((), allow_tcp_fingerprint, generate_keypair(), platform, open_listener)
    }
}

/// `Keypair::generate_ed25519`. Trusted: only that it returns; the key pair is
/// a random one.
#[verifier::external_body]
fn generate_keypair() -> (res: Keypair) {
    Keypair::generate_ed25519()
}

/// Whether an attempt to listen on `address` that came out as `opened` leads from
/// `pre` to `post` with the answer `res`.
pub open spec fn listen_noted<C, W, S, L, U, E>(
    pre: WebTransport<C, W, S, L, U, E>,
    address: Multiaddr,
    opened: Result<L, Error<E>>,
    post: WebTransport<C, W, S, L, U, E>,
    res: Result<(), TransportError<Error<E>>>,
) -> bool where S: Fn(W, &C, bool, SocketAddr, Keypair) -> (W, Result<L, Error<E>>) {
    match opened {
        Ok(listener) => {
            &&& res == Ok::<(), TransportError<Error<E>>>(())
            &&& post.pending_events@ == pre.pending_events@.push(
                TransportEvent::ListenAddress { address },
            )
            &&& post.listeners@ == pre.listeners@.push(listener)
            &&& post == (WebTransport {
                pending_events: post.pending_events,
                listeners: post.listeners,
                ..pre
            })
        },
        Err(err) => {
            &&& res == Err::<(), TransportError<Error<E>>>(TransportError::Other(err))
            &&& post == pre
        },
    }
}

/// Whether dialing `address` leads from `pre` to `post` with the answer `res`: an
/// address that can be dialed is, any other is given back, and the transport stays
/// as it is.
pub open spec fn web_dialed<C, W, S, L, U, E>(
    pre: WebTransport<C, W, S, L, U, E>,
    address: Multiaddr,
    post: WebTransport<C, W, S, L, U, E>,
    res: Result<OutboundUpgrade, TransportError<Error<E>>>,
) -> bool where S: Fn(W, &C, bool, SocketAddr, Keypair) -> (W, Result<L, Error<E>>) {
    &&& post == pre
    &&& res == match dial_target(components_of(address), pre.allow_tcp_fingerprint) {
        Some(socket) => Ok(
            OutboundUpgrade {
                remote: socket,
                allow_tcp_fingerprint: pre.allow_tcp_fingerprint,
                keypair: pre.keypair,
            },
        ),
        None => Err(TransportError::<Error<E>>::MultiaddrNotSupported(address)),
    }
}

/// Whether listening on `address` may lead from `pre` to `post` with the answer
/// `res`: for a WebTransport address that names no peer a listener is opened there,
/// once, and what comes of it is taken note of; any other is given back, the
/// platform is left alone, and the transport stays as it is.
pub open spec fn web_listened<C, W, S, L, U, E>(
    pre: WebTransport<C, W, S, L, U, E>,
    address: Multiaddr,
    post: WebTransport<C, W, S, L, U, E>,
    res: Result<(), TransportError<Error<E>>>,
) -> bool where S: Fn(W, &C, bool, SocketAddr, Keypair) -> (W, Result<L, Error<E>>) {
    match listen_target(address) {
        Some(socket) => exists|platform: W, opened: Result<L, Error<E>>| #[trigger]
            pre.may_open(socket, platform, opened) && listen_noted(
                WebTransport { platform: Some(platform), ..pre },
                address,
                opened,
                post,
                res,
            ),
        None => {
            &&& post == pre
            &&& res == Err::<(), TransportError<Error<E>>>(
                TransportError::MultiaddrNotSupported(address),
            )
        },
    }
}

impl<C, W, S, L, U, E> Transport for WebTransport<C, W, S, L, U, E> where
    S: Fn(W, &C, bool, SocketAddr, Keypair) -> (W, Result<L, Error<E>>),
 {
    type Error = Error<E>;

    type Dial = OutboundUpgrade;

    type ListenerUpgrade = U;

    open spec fn wf(self) -> bool {
        self.can_open()
    }

    open spec fn dial_step(
        pre: Self,
        address: Multiaddr,
        post: Self,
        res: Result<OutboundUpgrade, TransportError<Error<E>>>,
    ) -> bool {
        web_dialed(pre, address, post, res)
    }

    open spec fn listen_step(
        pre: Self,
        address: Multiaddr,
        post: Self,
        res: Result<(), TransportError<Error<E>>>,
    ) -> bool {
        web_listened(pre, address, post, res)
    }

    /// Returns [`Protocol::WebTransport`].
    fn supported_protocols_for_dialing(&self) -> (res: Protocol)
        ensures
            res == Protocol::WebTransport,
    {
        Protocol::WebTransport
    }

    /// Dials a remote peer using WebTransport.
    ///
    /// Expects an IP address, a UDP port, `/quic-v1` where it is given, and
    /// `/webtransport`. A peer may be named at the end. Where the fingerprint of the
    /// endpoint may be retrieved over TCP, an IP address and a TCP port will do as
    /// well.
    fn dial(&mut self, address: Multiaddr) -> (res: Result<
        OutboundUpgrade,
        TransportError<Error<E>>,
    >)
        ensures
            web_dialed(*old(self), address, *final(self), res),
    {
        let remote = match remote_ma_to_socketaddr::<E>(&address) {
            Ok((socket, _)) => Some(socket),
            Err(_) => if self.allow_tcp_fingerprint {
                components_to_tcp_socketaddr(&components(&address))
            } else {
                None
            },
        };
        match remote {
            Some(remote) => Ok(
                OutboundUpgrade {
                    remote,
                    allow_tcp_fingerprint: self.allow_tcp_fingerprint,
                    keypair: self.keypair.clone(),
                },
            ),
            None => Err(TransportError::MultiaddrNotSupported(address)),
        }
    }

    /// Starts listening for incoming WebTransport connections on the given
    /// address, which names no peer. What is listened on already stays so.
    ///
    /// Once the listener is open, a [`TransportEvent::ListenAddress`] will be
    /// reported.
    fn listen_on(&mut self, address: Multiaddr) -> (res: Result<(), TransportError<Error<E>>>)
        ensures
            web_listened(*old(self), address, *final(self), res),
    {
        match multiaddr_to_socketaddr(&address) {
            Some((socket, None)) => {
                let platform = self.platform.take().unwrap();
                let (platform, opened) = (self.open_listener)(
                    platform,
                    &self.config,
                    self.allow_tcp_fingerprint,
                    socket,
                    self.keypair.clone(),
                );
                assert(old(self).may_open(socket, platform, opened));
                self.platform = Some(platform);
                self.listener_opened(address, opened)
            },
            _ => Err(TransportError::MultiaddrNotSupported(address)),
        }
    }
}

/// An address that can be listened on can be dialed, and the two agree on the
/// socket address.
pub proof fn law_listenable_is_dialable<C, W, S, L, U, E>(
    pre: WebTransport<C, W, S, L, U, E>,
    address: Multiaddr,
    post: WebTransport<C, W, S, L, U, E>,
    res: Result<OutboundUpgrade, TransportError<Error<E>>>,
) where S: Fn(W, &C, bool, SocketAddr, Keypair) -> (W, Result<L, Error<E>>)
    requires
        web_dialed(pre, address, post, res),
        listen_target(address) is Some,
    ensures
        res is Ok,
        Some(res->Ok_0.remote) == listen_target(address),
{
}

/// Listens add up: after two that succeeded, all that was listened on before is
/// still listened on, then come the two listeners in the order of the calls, and
/// both addresses are to be reported.
pub proof fn law_listens_add_up<C, W, S, L, U, E>(
    pre: WebTransport<C, W, S, L, U, E>,
    address1: Multiaddr,
    mid: WebTransport<C, W, S, L, U, E>,
    address2: Multiaddr,
    post: WebTransport<C, W, S, L, U, E>,
) where S: Fn(W, &C, bool, SocketAddr, Keypair) -> (W, Result<L, Error<E>>)
    requires
        web_listened(pre, address1, mid, Ok(())),
        web_listened(mid, address2, post, Ok(())),
    ensures
        mid.listeners@.len() == pre.listeners@.len() + 1,
        mid.listeners@.drop_last() == pre.listeners@,
        post.listeners@.len() == mid.listeners@.len() + 1,
        post.listeners@.drop_last() == mid.listeners@,
        post.pending_events@ == pre.pending_events@.push(
            TransportEvent::ListenAddress { address: address1 },
        ).push(TransportEvent::ListenAddress { address: address2 }),
{
    assert(mid.listeners@.drop_last() =~= pre.listeners@);
    assert(post.listeners@.drop_last() =~= mid.listeners@);
}

/// Whether `steps` are the answers to so many polls in a row, which lead through
/// `states`.
pub open spec fn polled_in_a_row<C, W, S, L, U, E>(
    states: Seq<WebTransport<C, W, S, L, U, E>>,
    steps: Seq<Step<U, E>>,
) -> bool where S: Fn(W, &C, bool, SocketAddr, Keypair) -> (W, Result<L, Error<E>>) {
    &&& states.len() == steps.len() + 1
    &&& forall|k: int|
        0 <= k < steps.len() ==> web_polled(
            states[k],
            Progress::Start,
            states[k + 1],
            #[trigger] steps[k],
        )
}

/// Polls in a row report the events that were queued, each once, in the order in
/// which they were queued.
pub proof fn law_events_come_in_order<C, W, S, L, U, E>(
    states: Seq<WebTransport<C, W, S, L, U, E>>,
    steps: Seq<Step<U, E>>,
    n: nat,
) where S: Fn(W, &C, bool, SocketAddr, Keypair) -> (W, Result<L, Error<E>>)
    requires
        polled_in_a_row(states, steps),
        n <= steps.len(),
        n <= states[0].pending_events@.len(),
    ensures
        states[n as int].pending_events@ == states[0].pending_events@.skip(n as int),
        forall|k: int|
            0 <= k < n ==> #[trigger] steps[k] == Step::<U, E>::Ready(
                states[0].pending_events@[k],
            ),
    decreases n,
{
    let events = states[0].pending_events@;
    if n == 0 {
        assert(events.skip(0) =~= events);
    } else {
        let m = (n - 1) as nat;
        law_events_come_in_order(states, steps, m);
        assert(web_polled(states[m as int], Progress::Start, states[n as int], steps[m as int]));
        assert(events.skip(m as int).drop_first() =~= events.skip(n as int));
        assert(events.skip(m as int).first() == events[m as int]);
    }
}

/// A listen that succeeded is reported: once the events that were queued before
/// it are out, the next poll says which address is listened on.
pub proof fn law_listen_address_is_reported<C, W, S, L, U, E>(
    pre: WebTransport<C, W, S, L, U, E>,
    address: Multiaddr,
    states: Seq<WebTransport<C, W, S, L, U, E>>,
    steps: Seq<Step<U, E>>,
) where S: Fn(W, &C, bool, SocketAddr, Keypair) -> (W, Result<L, Error<E>>)
    requires
        polled_in_a_row(states, steps),
        web_listened(pre, address, states[0], Ok(())),
        pre.pending_events@.len() < steps.len(),
    ensures
        steps[pre.pending_events@.len() as int] == Step::<U, E>::Ready(
            TransportEvent::ListenAddress { address },
        ),
{
    let n = pre.pending_events@.len();
    law_events_come_in_order(states, steps, n + 1);
}

/// Whether a poll of a transport is driven as it is to be: it begins at the start,
/// everything that a step asks for is answered, and between the steps the events
/// that are still to be reported and the number of listeners are left alone.
pub open spec fn web_driven<C, W, S, L, U, E>(
    pre: Seq<WebTransport<C, W, S, L, U, E>>,
    progress: Seq<Progress<U, E>>,
    post: Seq<WebTransport<C, W, S, L, U, E>>,
    steps: Seq<Step<U, E>>,
) -> bool where S: Fn(W, &C, bool, SocketAddr, Keypair) -> (W, Result<L, Error<E>>) {
    &&& pre.len() == progress.len() == post.len() == steps.len()
    &&& pre.len() > 0
    &&& progress[0] is Start
    &&& forall|k: int|
        0 <= k < steps.len() ==> web_polled(pre[k], progress[k], post[k], #[trigger] steps[k])
    &&& forall|k: int|
        0 < k < steps.len() ==> {
            &&& (#[trigger] steps[k - 1]) is PollListener
            &&& progress[k] is Listener
            &&& progress[k]->Listener_0 == steps[k - 1]->PollListener_0
            &&& pre[k].pending_events@ == post[k - 1].pending_events@
            &&& pre[k].listeners.len() == post[k - 1].listeners.len()
        }
}

/// Whether the listener that answered so has nothing to report.
pub open spec fn passed_over<U, E>(progress: Progress<U, E>) -> bool {
    progress is Listener && !(progress->Listener_1 matches Poll::Ready(Some(_)))
}

/// Every listener is asked in its turn: the step number `k` of a poll that finds
/// no event queued asks for the listener at the place `k`, once all before it had
/// nothing to report; reports what the listener before it just had to report; or,
/// after the last of them, says that there is nothing.
pub proof fn law_every_listener_is_asked<C, W, S, L, U, E>(
    pre: Seq<WebTransport<C, W, S, L, U, E>>,
    progress: Seq<Progress<U, E>>,
    post: Seq<WebTransport<C, W, S, L, U, E>>,
    steps: Seq<Step<U, E>>,
    k: int,
) where S: Fn(W, &C, bool, SocketAddr, Keypair) -> (W, Result<L, Error<E>>)
    requires
        web_driven(pre, progress, post, steps),
        pre[0].pending_events@.len() == 0,
        0 <= k < steps.len(),
    ensures
        pre[k].listeners.len() == pre[0].listeners.len(),
        post[k] == pre[k],
        match steps[k] {
            Step::PollListener(i) => {
                &&& i == k
                &&& k < pre[0].listeners.len()
                &&& forall|j: int| 0 < j <= k ==> passed_over(#[trigger] progress[j])
            },
            Step::Ready(event) => {
                &&& k > 0
                &&& progress[k] == Progress::Listener((k - 1) as usize, Poll::Ready(Some(event)))
                &&& forall|j: int| 0 < j < k ==> passed_over(#[trigger] progress[j])
            },
            Step::Pending => {
                &&& k == pre[0].listeners.len()
                &&& forall|j: int| 0 < j <= k ==> passed_over(#[trigger] progress[j])
            },
        },
    decreases k,
{
    assert(web_polled(pre[k], progress[k], post[k], steps[k]));
    if k > 0 {
        law_every_listener_is_asked(pre, progress, post, steps, k - 1);
        assert(steps[k - 1] is PollListener);
    }
}

} // verus!
