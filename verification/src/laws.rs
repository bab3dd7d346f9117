//! What holds of a node as a whole.

use libp2p_identity::{Keypair, PeerId};
use multiaddr::Multiaddr;
use vstd::prelude::*;

use crate::address::{components_of, Component, SocketAddr};
use crate::error::Error;
use crate::node::{dial_noted, listen_answer, protocol_of, Node, Progress, Step};
use crate::peer::{Incoming, Manager, Outgoing};
use crate::protocol::Protocol;
use crate::transport::{Poll, Transport, TransportError, TransportEvent};
use crate::transports::{slot, TransportMap};
use crate::webtransport::{
    listen_target, target_of, web_listened, without_peer, OutboundUpgrade, WebTransport,
};

verus! {

/// Every WebTransport address is routed to the WebTransport transport.
pub proof fn law_webtransport_address_is_routed(parts: Seq<Component>)
    requires
        target_of(parts) is Some,
    ensures
        protocol_of(parts) == Some(Protocol::WebTransport),
{
    let head = without_peer(parts);
    assert(parts[head.len() - 1] == Component::WebTransport);
}

/// A dial that was accepted is waited for: the remote peer is the last one among
/// the outgoing connections, at the address that was dialed, and those before it
/// are kept. After a dial that was refused the node waits for what it waited for
/// before.
pub proof fn law_dial_is_waited_for<T: Transport, Ev>(
    pre: Node<T, Ev>,
    remote_peer_id: PeerId,
    remote_address: Multiaddr,
    post: Node<T, Ev>,
    res: Result<(), Error<T::Error>>,
)
    requires
        Node::<T, Ev>::dialed(pre, remote_peer_id, remote_address, post, res),
    ensures
        post.peer_manager.incoming == pre.peer_manager.incoming,
        match res {
            Ok(()) => {
                let outgoing = post.peer_manager.outgoing@;
                &&& outgoing.len() > 0
                &&& outgoing.drop_last() == pre.peer_manager.outgoing@
                &&& outgoing.last().peer_id == remote_peer_id
                &&& outgoing.last().address == remote_address
            },
            Err(_) => post.peer_manager == pre.peer_manager,
        },
{
    if res is Ok {
        assert(post.peer_manager.outgoing@.drop_last() =~= pre.peer_manager.outgoing@);
    }
}

/// A node with a WebTransport transport dials exactly the WebTransport addresses,
/// and waits for a connection to the socket address that the address names. It
/// refuses all others, gives the address back, and nothing changes.
pub proof fn law_node_dials_webtransport<C, W, S, L, U, E, Ev>(
    pre: Node<WebTransport<C, W, S, L, U, E>, Ev>,
    i: int,
    remote_peer_id: PeerId,
    remote_address: Multiaddr,
    post: Node<WebTransport<C, W, S, L, U, E>, Ev>,
    res: Result<(), Error<crate::webtransport::Error<E>>>,
) where S: Fn(W, &C, bool, SocketAddr, Keypair) -> (W, Result<L, crate::webtransport::Error<E>>)
    requires
        slot(pre.transports@, Protocol::WebTransport) == Some(i),
        Node::<WebTransport<C, W, S, L, U, E>, Ev>::dialed(
            pre,
            remote_peer_id,
            remote_address,
            post,
            res,
        ),
    ensures
        post.peer_id == pre.peer_id,
        post.pending_events == pre.pending_events,
        post.transports@ == pre.transports@,
        post.peer_manager.incoming == pre.peer_manager.incoming,
        match target_of(components_of(remote_address)) {
            Some((socket, _)) => {
                let transport = pre.transports@[i].1;
                let dial = OutboundUpgrade {
                    remote: socket,
                    allow_tcp_fingerprint: transport.allow_tcp_fingerprint,
                    keypair: transport.keypair,
                };
                &&& res is Ok
                &&& post.peer_manager.outgoing@ == pre.peer_manager.outgoing@.push(
                    Outgoing { peer_id: remote_peer_id, dial, address: remote_address },
                )
            },
            None => {
                &&& res == match protocol_of(components_of(remote_address)) {
                    Some(_) => Err::<(), Error<crate::webtransport::Error<E>>>(
                        Error::Transport(TransportError::MultiaddrNotSupported(remote_address)),
                    ),
                    None => Err(Error::NoProtocolsInMultiaddr(remote_address)),
                }
                &&& post.peer_manager == pre.peer_manager
            },
        },
{
    let parts = components_of(remote_address);
    assert(pre.transports@.update(i, (Protocol::WebTransport, pre.transports@[i].1))
        =~= pre.transports@);
    if target_of(parts) is Some {
        law_webtransport_address_is_routed(parts);
    }
}

/// A node with a WebTransport transport hands on to it exactly the listens on
/// WebTransport addresses that name no peer, together with its answer. It refuses
/// all others, gives the address back, and nothing changes.
pub proof fn law_node_listens_webtransport<C, W, S, L, U, E, Ev>(
    pre: Node<WebTransport<C, W, S, L, U, E>, Ev>,
    i: int,
    address: Multiaddr,
    post: Node<WebTransport<C, W, S, L, U, E>, Ev>,
    res: Result<(), Error<crate::webtransport::Error<E>>>,
) where S: Fn(W, &C, bool, SocketAddr, Keypair) -> (W, Result<L, crate::webtransport::Error<E>>)
    requires
        slot(pre.transports@, Protocol::WebTransport) == Some(i),
        Node::<WebTransport<C, W, S, L, U, E>, Ev>::listened(pre, address, post, res),
    ensures
        post.peer_id == pre.peer_id,
        post.pending_events == pre.pending_events,
        post.peer_manager == pre.peer_manager,
        match listen_target(address) {
            Some(_) => web_listened(
                pre.transports@[i].1,
                address,
                post.transports@[i].1,
                match res {
                    Ok(()) => Ok(()),
                    Err(err) => Err(err->Transport_0),
                },
            ) && (res is Err ==> res->Err_0 is Transport),
            None => {
                &&& post.transports@ == pre.transports@
                &&& res == match protocol_of(components_of(address)) {
                    Some(_) => Err::<(), Error<crate::webtransport::Error<E>>>(
                        Error::Transport(TransportError::MultiaddrNotSupported(address)),
                    ),
                    None => Err(Error::NoProtocolsInMultiaddr(address)),
                }
            },
        },
{
    let parts = components_of(address);
    assert(pre.transports@.update(i, (Protocol::WebTransport, pre.transports@[i].1))
        =~= pre.transports@);
    if target_of(parts) is Some {
        law_webtransport_address_is_routed(parts);
    }
}

/// Whether `progress` is an answer to what `step` asks for.
pub open spec fn answers<P, U, E, Ev>(progress: Progress<P, U, E>, step: Step<Ev>) -> bool {
    match step {
        Step::PollPeers => progress is Peers,
        Step::PollTransport(i) => progress is Transport && progress->Transport_0 == i,
        Step::Ready(_) | Step::Pending => false,
    }
}

/// Whether a poll of a node is driven as it is to be: it begins at the start,
/// everything that a step asks for is answered, and between the steps the events
/// that are still to be emitted and the number of transports are left alone.
pub open spec fn driven<T: Transport, Ev, P>(
    pre: Seq<Node<T, Ev>>,
    progress: Seq<Progress<P, T::ListenerUpgrade, T::Error>>,
    post: Seq<Node<T, Ev>>,
    steps: Seq<Step<Ev>>,
) -> bool {
    &&& pre.len() == progress.len() == post.len() == steps.len()
    &&& pre.len() > 0
    &&& pre[0].wf()
    &&& progress[0] is Start
    &&& forall|k: int|
        0 <= k < steps.len() ==> Node::<T, Ev>::polled(
            pre[k],
            progress[k],
            post[k],
            #[trigger] steps[k],
        )
    &&& forall|k: int|
        0 < k < steps.len() ==> {
            &&& answers(progress[k], #[trigger] steps[k - 1])
            &&& pre[k].pending_events@ == post[k - 1].pending_events@
            &&& pre[k].transports@.len() == post[k - 1].transports@.len()
        }
}

/// Where a poll stands after its step number `k`.
proof fn lemma_driven<T: Transport, Ev, P>(
    pre: Seq<Node<T, Ev>>,
    progress: Seq<Progress<P, T::ListenerUpgrade, T::Error>>,
    post: Seq<Node<T, Ev>>,
    steps: Seq<Step<Ev>>,
    k: int,
)
    requires
        driven(pre, progress, post, steps),
        0 <= k < steps.len(),
    ensures
        pre[k].transports@.len() == pre[0].transports@.len(),
        post[k].transports@.len() == pre[0].transports@.len(),
        steps[k] !is Ready ==> post[k].pending_events@.len() == 0,
        steps[k] matches Step::PollTransport(i) ==> {
            &&& i <= k - 1
            &&& i < pre[0].transports@.len()
            &&& progress[k - i] == Progress::<P, T::ListenerUpgrade, T::Error>::Peers(Poll::Pending)
            &&& forall|j: int|
                0 <= j < i ==> #[trigger] progress[k - i + 1 + j] == Progress::<
                    P,
                    T::ListenerUpgrade,
                    T::Error,
                >::Transport(j as usize, Poll::Pending)
        },
    decreases k,
{
    assert(Node::<T, Ev>::polled(pre[k], progress[k], post[k], steps[k]));
    if k > 0 {
        lemma_driven(pre, progress, post, steps, k - 1);
        assert(answers(progress[k], steps[k - 1]));
        if let (Step::PollTransport(h), Step::PollTransport(i)) = (steps[k - 1], steps[k]) {
            assert(i == h + 1);
            assert forall|j: int| 0 <= j < i implies #[trigger] progress[k - i + 1 + j]
                == Progress::<P, T::ListenerUpgrade, T::Error>::Transport(
                j as usize,
                Poll::Pending,
            ) by {
                if j < h {
                    assert(progress[(k - 1) - h + 1 + j] == progress[k - i + 1 + j]);
                }
            }
        }
    }
}

/// A node is put to sleep only when there is nothing left to do: no event is still
/// to be emitted, and in the last round neither the connections that are being
/// established nor any of the transports, each polled in its turn, were ready.
pub proof fn law_pending_means_idle<T: Transport, Ev, P>(
    pre: Seq<Node<T, Ev>>,
    progress: Seq<Progress<P, T::ListenerUpgrade, T::Error>>,
    post: Seq<Node<T, Ev>>,
    steps: Seq<Step<Ev>>,
)
    requires
        driven(pre, progress, post, steps),
        steps.last() is Pending,
    ensures
        post.last().pending_events@.len() == 0,
        ({
            let n = post.last().transports@.len() as int;
            let begin = steps.len() - 1 - n;
            &&& begin >= 1
            &&& progress[begin] == Progress::<P, T::ListenerUpgrade, T::Error>::Peers(Poll::Pending)
            &&& forall|j: int|
                0 <= j < n ==> #[trigger] progress[begin + 1 + j] == Progress::<
                    P,
                    T::ListenerUpgrade,
                    T::Error,
                >::Transport(j as usize, Poll::Pending)
        }),
{
    let k = steps.len() - 1;
    let n = pre[0].transports@.len() as int;
    lemma_driven(pre, progress, post, steps, k);
    assert(Node::<T, Ev>::polled(pre[k], progress[k], post[k], steps[k]));
    lemma_driven(pre, progress, post, steps, k - 1);
    assert(answers(progress[k], steps[k - 1]));
    let begin = k - n;
    assert forall|j: int| 0 <= j < n implies #[trigger] progress[begin + 1 + j] == Progress::<
        P,
        T::ListenerUpgrade,
        T::Error,
    >::Transport(j as usize, Poll::Pending) by {
        if j < n - 1 {
            assert(progress[(k - 1) - (n - 1) + 1 + j] == progress[begin + 1 + j]);
        }
    }
}

/// Nothing is made up: a poll emits an event only if one was still to be emitted
/// when it began. Then it emits the first of them, at once, and is over.
pub proof fn law_nothing_is_made_up<T: Transport, Ev, P>(
    pre: Seq<Node<T, Ev>>,
    progress: Seq<Progress<P, T::ListenerUpgrade, T::Error>>,
    post: Seq<Node<T, Ev>>,
    steps: Seq<Step<Ev>>,
    k: int,
)
    requires
        driven(pre, progress, post, steps),
        0 <= k < steps.len(),
    ensures
        if pre[0].pending_events@.len() > 0 {
            &&& steps.len() == 1
            &&& steps[k] == Step::Ready(pre[0].pending_events@.first())
        } else {
            steps[k] !is Ready
        },
    decreases k,
{
    assert(Node::<T, Ev>::polled(pre[0], progress[0], post[0], steps[0]));
    if steps.len() > 1 {
        assert(answers(progress[1], steps[1 - 1]));
    }
    if k > 0 {
        law_nothing_is_made_up(pre, progress, post, steps, k - 1);
        lemma_driven(pre, progress, post, steps, k - 1);
        assert(answers(progress[k], steps[k - 1]));
        assert(Node::<T, Ev>::polled(pre[k], progress[k], post[k], steps[k]));
    }
}

/// Whether nothing that was polled was ready.
pub open spec fn nothing_ready<P, U, E>(progress: Seq<Progress<P, U, E>>) -> bool {
    forall|k: int|
        0 < k < progress.len() ==> match #[trigger] progress[k] {
            Progress::Start => false,
            Progress::Peers(polled) => polled is Pending,
            Progress::Transport(_, polled) => polled is Pending,
        }
}

/// A poll in which nothing is ready comes to its end: it asks for the connections
/// that are being established and for each transport once, in the order of the
/// walk, and then it is over.
pub proof fn law_idle_poll_ends<T: Transport, Ev, P>(
    pre: Seq<Node<T, Ev>>,
    progress: Seq<Progress<P, T::ListenerUpgrade, T::Error>>,
    post: Seq<Node<T, Ev>>,
    steps: Seq<Step<Ev>>,
    k: int,
)
    requires
        driven(pre, progress, post, steps),
        pre[0].pending_events@.len() == 0,
        nothing_ready(progress),
        0 <= k < steps.len(),
    ensures
        k <= pre[0].transports@.len() + 1,
        steps[k] == if k == 0 {
            Step::<Ev>::PollPeers
        } else if k <= pre[0].transports@.len() {
            Step::<Ev>::PollTransport((k - 1) as usize)
        } else {
            Step::<Ev>::Pending
        },
    decreases k,
{
    assert(Node::<T, Ev>::polled(pre[k], progress[k], post[k], steps[k]));
    if k > 0 {
        law_idle_poll_ends(pre, progress, post, steps, k - 1);
        lemma_driven(pre, progress, post, steps, k - 1);
        assert(answers(progress[k], steps[k - 1]));
        lemma_driven(pre, progress, post, steps, k);
    }
}

/// An address is routed exactly if one of its components is `/webtransport`,
/// wherever it stands.
pub proof fn law_routed_by_component(parts: Seq<Component>)
    ensures
        match protocol_of(parts) {
            Some(protocol) => protocol == Protocol::WebTransport && exists|j: int|
                0 <= j < parts.len() && #[trigger] parts[j] is WebTransport,
            None => forall|j: int| 0 <= j < parts.len() ==> !(#[trigger] parts[j] is WebTransport),
        },
{
    if protocol_of(parts) is None {
        assert forall|j: int| 0 <= j < parts.len() implies !(#[trigger] parts[j] is WebTransport) by {
            assert(parts[j] == Component::WebTransport ==> parts.contains(
                Component::WebTransport,
            ));
        }
    }
}

/// What a transport answers to a dial decides what the node does: it waits for what
/// came of the dial, for the peer and at the address that were dialed, after all that
/// it waited for already; or it hands the error on and waits for no more than before.
pub proof fn law_dial_outcome_decides<D, U, E>(
    pre: Manager<D, U>,
    remote_peer_id: PeerId,
    remote_address: Multiaddr,
    outcome: Result<D, TransportError<E>>,
    post: Manager<D, U>,
    res: Result<(), Error<E>>,
)
    requires
        dial_noted(pre, remote_peer_id, remote_address, outcome, post, res),
    ensures
        res is Ok <==> outcome is Ok,
        post.incoming == pre.incoming,
        outcome is Ok ==> {
            &&& post.outgoing@.len() == pre.outgoing@.len() + 1
            &&& post.outgoing@.drop_last() == pre.outgoing@
            &&& post.outgoing@.last().peer_id == remote_peer_id
            &&& post.outgoing@.last().address == remote_address
            &&& post.outgoing@.last().dial == outcome->Ok_0
        },
        outcome is Err ==> post == pre && res->Err_0 == Error::Transport(outcome->Err_0),
{
    if outcome is Ok {
        assert(post.outgoing@.drop_last() =~= pre.outgoing@);
    }
}

/// The answer of a transport to a listen is handed on: a success as a success, an
/// error as that error.
pub proof fn law_listen_answer_is_handed_on<E>(outcome: Result<(), TransportError<E>>)
    ensures
        listen_answer(outcome) is Ok <==> outcome is Ok,
        outcome is Err ==> listen_answer(outcome)->Err_0 == Error::Transport(outcome->Err_0),
{
}

/// A dial goes to the transport for `/webtransport` if that is a component of the
/// address and there is such a transport, and to none otherwise. That transport is
/// asked once, with the address itself; the others are left alone. What it answers
/// decides: what came of it is waited for, with the peer and the address, or its
/// error is the answer.
pub proof fn law_dial_asks_its_transport<T: Transport, Ev>(
    pre: Node<T, Ev>,
    remote_peer_id: PeerId,
    remote_address: Multiaddr,
    post: Node<T, Ev>,
    res: Result<(), Error<T::Error>>,
    i: int,
)
    requires
        pre.wf(),
        Node::<T, Ev>::dialed(pre, remote_peer_id, remote_address, post, res),
    ensures
        ({
            let parts = components_of(remote_address);
            let named = exists|j: int|
                0 <= j < parts.len() && #[trigger] parts[j] is WebTransport;
            let found = 0 <= i < pre.transports@.len() && pre.transports@[i].0
                == Protocol::WebTransport;
            let none = forall|j: int|
                0 <= j < pre.transports@.len() ==> (#[trigger] pre.transports@[j]).0
                    != Protocol::WebTransport;
            &&& post.peer_id == pre.peer_id
            &&& post.pending_events == pre.pending_events
            &&& post.peer_manager.incoming == pre.peer_manager.incoming
            &&& !named ==> {
                &&& post == pre
                &&& res == Err::<(), Error<T::Error>>(Error::NoProtocolsInMultiaddr(remote_address))
            }
            &&& named && none ==> {
                &&& post == pre
                &&& res == Err::<(), Error<T::Error>>(
                    Error::TransportNotFound(Protocol::WebTransport),
                )
            }
            &&& named && found ==> {
                &&& post.transports@.len() == pre.transports@.len()
                &&& post.transports@[i].0 == Protocol::WebTransport
                &&& forall|j: int|
                    0 <= j < pre.transports@.len() && j != i ==> #[trigger] post.transports@[j]
                        == pre.transports@[j]
                &&& match res {
                    Ok(()) => {
                        let outgoing = post.peer_manager.outgoing@;
                        &&& outgoing.len() == pre.peer_manager.outgoing@.len() + 1
                        &&& outgoing.drop_last() == pre.peer_manager.outgoing@
                        &&& outgoing.last().peer_id == remote_peer_id
                        &&& outgoing.last().address == remote_address
                        &&& T::dial_step(
                            pre.transports@[i].1,
                            remote_address,
                            post.transports@[i].1,
                            Ok(outgoing.last().dial),
                        )
                    },
                    Err(err) => {
                        &&& err is Transport
                        &&& post.peer_manager == pre.peer_manager
                        &&& T::dial_step(
                            pre.transports@[i].1,
                            remote_address,
                            post.transports@[i].1,
                            Err(err->Transport_0),
                        )
                    },
                }
            }
        }),
{
    law_routed_by_component(components_of(remote_address));
    if 0 <= i < pre.transports@.len() && pre.transports@[i].0 == Protocol::WebTransport {
        let k = slot(pre.transports@, Protocol::WebTransport)->Some_0;
        assert(pre.transports@[k].0 == Protocol::WebTransport);
        assert(k == i);
        if res is Ok && protocol_of(components_of(remote_address)) is Some {
            assert(post.peer_manager.outgoing@.drop_last() =~= pre.peer_manager.outgoing@);
        }
    }
}

/// A listen goes to the transport for `/webtransport` if that is a component of the
/// address and there is such a transport, and to none otherwise. That transport is
/// asked once, with the address itself, and its answer is the answer; nothing but
/// that transport changes.
pub proof fn law_listen_asks_its_transport<T: Transport, Ev>(
    pre: Node<T, Ev>,
    address: Multiaddr,
    post: Node<T, Ev>,
    res: Result<(), Error<T::Error>>,
    i: int,
)
    requires
        pre.wf(),
        Node::<T, Ev>::listened(pre, address, post, res),
    ensures
        ({
            let parts = components_of(address);
            let named = exists|j: int|
                0 <= j < parts.len() && #[trigger] parts[j] is WebTransport;
            let found = 0 <= i < pre.transports@.len() && pre.transports@[i].0
                == Protocol::WebTransport;
            let none = forall|j: int|
                0 <= j < pre.transports@.len() ==> (#[trigger] pre.transports@[j]).0
                    != Protocol::WebTransport;
            &&& post.peer_id == pre.peer_id
            &&& post.pending_events == pre.pending_events
            &&& post.peer_manager == pre.peer_manager
            &&& !named ==> {
                &&& post == pre
                &&& res == Err::<(), Error<T::Error>>(Error::NoProtocolsInMultiaddr(address))
            }
            &&& named && none ==> {
                &&& post == pre
                &&& res == Err::<(), Error<T::Error>>(
                    Error::TransportNotFound(Protocol::WebTransport),
                )
            }
            &&& named && found ==> {
                &&& post.transports@.len() == pre.transports@.len()
                &&& post.transports@[i].0 == Protocol::WebTransport
                &&& forall|j: int|
                    0 <= j < pre.transports@.len() && j != i ==> #[trigger] post.transports@[j]
                        == pre.transports@[j]
                &&& match res {
                    Ok(()) => T::listen_step(
                        pre.transports@[i].1,
                        address,
                        post.transports@[i].1,
                        Ok(()),
                    ),
                    Err(err) => err is Transport && T::listen_step(
                        pre.transports@[i].1,
                        address,
                        post.transports@[i].1,
                        Err(err->Transport_0),
                    ),
                }
            }
        }),
{
    law_routed_by_component(components_of(address));
    if 0 <= i < pre.transports@.len() && pre.transports@[i].0 == Protocol::WebTransport {
        let k = slot(pre.transports@, Protocol::WebTransport)->Some_0;
        assert(pre.transports@[k].0 == Protocol::WebTransport);
        assert(k == i);
        if protocol_of(components_of(address)) is Some {
            let (transport, outcome) = choose|
                transport: T,
                outcome: Result<(), TransportError<T::Error>>,
            |
                {
                    &&& #[trigger] T::listen_step(
                        pre.transports@[i].1,
                        address,
                        transport,
                        outcome,
                    )
                    &&& post.transports@ == pre.transports@.update(
                        i,
                        (Protocol::WebTransport, transport),
                    )
                    &&& res == listen_answer(outcome)
                };
            assert(res is Ok ==> outcome->Ok_0 == ());
        }
    }
}

/// Every incoming connection is waited for, whatever the node waits for already: it
/// comes after the earlier ones, which are kept, with its upgrade and with its local
/// and its remote address, each in its place.
pub proof fn law_incoming_is_waited_for<T: Transport, Ev>(
    pre: Node<T, Ev>,
    remote_addr: Multiaddr,
    local_addr: Multiaddr,
    upgrade: T::ListenerUpgrade,
    post: Node<T, Ev>,
)
    requires
        Node::<T, Ev>::event_handled(
            pre,
            TransportEvent::Incoming { remote_addr, local_addr, upgrade },
            post,
        ),
    ensures
        post.peer_manager.incoming@.len() == pre.peer_manager.incoming@.len() + 1,
        forall|i: int|
            0 <= i < pre.peer_manager.incoming@.len() ==> #[trigger] post.peer_manager.incoming@[i]
                == pre.peer_manager.incoming@[i],
        post.peer_manager.incoming@.last().upgrade == upgrade,
        post.peer_manager.incoming@.last().local_addr == local_addr,
        post.peer_manager.incoming@.last().remote_addr == remote_addr,
        post.peer_manager.outgoing == pre.peer_manager.outgoing,
        post.peer_id == pre.peer_id,
        post.transports == pre.transports,
        post.pending_events == pre.pending_events,
{
}

/// Only an incoming connection changes a node; any other event of a transport leaves
/// it as it is.
pub proof fn law_other_events_change_nothing<T: Transport, Ev>(
    pre: Node<T, Ev>,
    event: TransportEvent<T::ListenerUpgrade, T::Error>,
    post: Node<T, Ev>,
)
    requires
        Node::<T, Ev>::event_handled(pre, event, post),
        event !is Incoming,
    ensures
        post == pre,
{
}

/// A poll to which a transport answers with an incoming connection takes it in: the
/// incoming connections are those before, followed by one with the upgrade and the
/// local and the remote address of the event, each in its place. With any other
/// answer they stay as they are. The outgoing connections always do, and so do the
/// transports and the identity of the node.
pub proof fn law_poll_takes_in_incoming<T: Transport, Ev, P>(
    pre: Node<T, Ev>,
    progress: Progress<P, T::ListenerUpgrade, T::Error>,
    post: Node<T, Ev>,
    res: Step<Ev>,
)
    requires
        Node::<T, Ev>::polled(pre, progress, post, res),
    ensures
        post.peer_manager.outgoing == pre.peer_manager.outgoing,
        post.transports == pre.transports,
        post.peer_id == pre.peer_id,
        match progress {
            Progress::Transport(
                _,
                Poll::Ready(TransportEvent::Incoming { remote_addr, local_addr, upgrade }),
            ) => post.peer_manager.incoming@ == pre.peer_manager.incoming@
                + seq![Incoming { upgrade, local_addr, remote_addr }],
            _ => post.peer_manager == pre.peer_manager,
        },
{
    if let Progress::Transport(
        _,
        Poll::Ready(TransportEvent::Incoming { remote_addr, local_addr, upgrade }),
    ) = progress {
        assert(post.peer_manager.incoming@ =~= pre.peer_manager.incoming@
            + seq![Incoming { upgrade, local_addr, remote_addr }]);
    }
}

/// A poll emits the events in the order in which they were queued and loses none:
/// what it emits was the first of them, and the rest is left; a poll that emits
/// nothing leaves them all.
pub proof fn law_poll_emits_the_first<T: Transport, Ev, P>(
    pre: Node<T, Ev>,
    progress: Progress<P, T::ListenerUpgrade, T::Error>,
    post: Node<T, Ev>,
    res: Step<Ev>,
)
    requires
        Node::<T, Ev>::polled(pre, progress, post, res),
    ensures
        match res {
            Step::Ready(event) => pre.pending_events@ == seq![event] + post.pending_events@,
            _ => post.pending_events@ == pre.pending_events@,
        },
{
    if let Step::Ready(event) = res {
        assert(pre.pending_events@ =~= seq![event] + post.pending_events@);
    }
}

/// Whatever was ready begins a new round: an event that is still to be emitted is
/// emitted, and where there is none the connections that are being established are
/// asked for. Whatever was not ready is passed over: the transport that is next in
/// the walk is asked for, and where there is none there is nothing to emit yet.
pub proof fn law_poll_goes_on<T: Transport, Ev, P>(
    pre: Node<T, Ev>,
    progress: Progress<P, T::ListenerUpgrade, T::Error>,
    post: Node<T, Ev>,
    res: Step<Ev>,
)
    requires
        pre.wf(),
        Node::<T, Ev>::polled(pre, progress, post, res),
    ensures
        match progress {
            Progress::Start
            | Progress::Peers(Poll::Ready(_))
            | Progress::Transport(_, Poll::Ready(_)) => {
                &&& res is Ready <==> pre.pending_events@.len() > 0
                &&& res is PollPeers <==> pre.pending_events@.len() == 0
            },
            Progress::Peers(Poll::Pending) => {
                &&& post == pre
                &&& res is Pending <==> pre.transports@.len() == 0
                &&& res !is Pending ==> res == Step::<Ev>::PollTransport(0)
            },
            Progress::Transport(i, Poll::Pending) => {
                &&& post == pre
                &&& res is Pending <==> i + 1 >= pre.transports@.len()
                &&& res !is Pending ==> res is PollTransport && res->PollTransport_0 == i + 1
            },
        },
{
}

/// The incoming connections that come with the first `n` answers of a poll.
pub open spec fn incoming_in<P, U, E>(progress: Seq<Progress<P, U, E>>, n: int) -> Seq<Incoming<U>>
    decreases n,
{
    if n <= 0 {
        seq![]
    } else {
        match progress[n - 1] {
            Progress::Transport(
                _,
                Poll::Ready(TransportEvent::Incoming { remote_addr, local_addr, upgrade }),
            ) => incoming_in(progress, n - 1) + seq![Incoming { upgrade, local_addr, remote_addr }],
            _ => incoming_in(progress, n - 1),
        }
    }
}

/// No incoming connection is lost while a poll is driven: if the connections are left
/// alone between its steps, then after any of them the node waits for those that it
/// waited for when the poll began and, in the order of the answers, for all that the
/// transports answered with.
pub proof fn law_every_incoming_is_waited_for<T: Transport, Ev, P>(
    pre: Seq<Node<T, Ev>>,
    progress: Seq<Progress<P, T::ListenerUpgrade, T::Error>>,
    post: Seq<Node<T, Ev>>,
    steps: Seq<Step<Ev>>,
    k: int,
)
    requires
        driven(pre, progress, post, steps),
        forall|j: int|
            0 < j < steps.len() ==> (#[trigger] pre[j]).peer_manager == post[j - 1].peer_manager,
        0 <= k < steps.len(),
    ensures
        post[k].peer_manager.outgoing == pre[0].peer_manager.outgoing,
        post[k].peer_manager.incoming@ == pre[0].peer_manager.incoming@ + incoming_in(
            progress,
            k + 1,
        ),
    decreases k,
{
    assert(Node::<T, Ev>::polled(pre[k], progress[k], post[k], steps[k]));
    law_poll_takes_in_incoming(pre[k], progress[k], post[k], steps[k]);
    let before = pre[0].peer_manager.incoming@;
    if k == 0 {
        assert(incoming_in(progress, 0) =~= seq![]);
        assert(post[0].peer_manager.incoming@ =~= before + incoming_in(progress, 1));
    } else {
        law_every_incoming_is_waited_for(pre, progress, post, steps, k - 1);
        assert(pre[k].peer_manager == post[k - 1].peer_manager);
        assert(post[k].peer_manager.incoming@ =~= before + incoming_in(progress, k + 1));
    }
}

/// A new node has the identity and the transports that it was given, waits for
/// nothing, and its first poll has nothing to emit and asks for the connections that
/// are being established.
pub proof fn law_new_node_is_idle<T: Transport, Ev, P>(
    peer_id: PeerId,
    transports: TransportMap<T>,
    pre: Node<T, Ev>,
    post: Node<T, Ev>,
    res: Step<Ev>,
)
    requires
        Node::<T, Ev>::created(peer_id, transports, pre),
        Node::<T, Ev>::polled(pre, Progress::<P, T::ListenerUpgrade, T::Error>::Start, post, res),
    ensures
        res is PollPeers,
        post.peer_id == peer_id,
        post.transports == transports,
        post.pending_events@.len() == 0,
        post.peer_manager.outgoing@.len() == 0,
        post.peer_manager.incoming@.len() == 0,
{
}

} // verus!
