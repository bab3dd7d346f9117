//! A node with its transports: routing of dials and listens, and the schedule by
//! which it polls what it owns.

use std::collections::VecDeque;

use libp2p_identity::PeerId;
use multiaddr::Multiaddr;
use vstd::prelude::*;

use crate::address::{components, components_of, Component};
use crate::error::Error;
use crate::peer::{Incoming, Manager, Outgoing};
use crate::protocol::Protocol;
use crate::transport::{Poll, Transport, TransportError, TransportEvent};
use crate::transports::{slot, TransportMap};

verus! {

/// The protocol that an address with these components is routed by, if there is
/// one.
pub open spec fn protocol_of(parts: Seq<Component>) -> Option<Protocol> {
    if parts.contains(Component::WebTransport) {
        Some(Protocol::WebTransport)
    } else {
        None
    }
}

/// Finds the protocol that an address with these components is routed by.
pub fn extract_protocol_from_components(parts: &Vec<Component>) -> (res: Option<Protocol>)
    ensures
        res == protocol_of(parts@),
{
    let mut i: usize = 0;
    while i < parts.len()
        invariant
            i <= parts.len(),
            forall|j: int| 0 <= j < i ==> parts@[j] != Component::WebTransport,
        decreases parts.len() - i,
    {
        if matches!(parts[i], Component::WebTransport) {
            assert(parts@[i as int] == Component::WebTransport);
            return Some(Protocol::WebTransport);
        }
        i += 1;
    }
    None
}

/// Finds the protocol that an address is routed by.
pub fn extract_protocol_from_multiaddr<E>(address: &Multiaddr) -> (res: Result<Protocol, Error<E>>)
    ensures
        res == match protocol_of(components_of(*address)) {
            Some(protocol) => Ok(protocol),
            None => Err(Error::<E>::NoProtocolsInMultiaddr(*address)),
        },
{
    match extract_protocol_from_components(&components(address)) {
        Some(protocol) => Ok(protocol),
        None => Err(Error::NoProtocolsInMultiaddr(address.clone())),
    }
}

/// A node of the network. `Ev` is the type of the events that it emits.
pub struct Node<T: Transport, Ev> {
    /// The identity of this node.
    pub peer_id: PeerId,
    /// The transports, each under its protocol.
    pub transports: TransportMap<T>,
    /// The connections that are being established.
    pub peer_manager: Manager<T::Dial, T::ListenerUpgrade>,
    /// The events that are still to be emitted.
    pub pending_events: VecDeque<Ev>,
}

/// How far a poll of a [`Node`] has come.
pub enum Progress<P, U, E> {
    /// It begins.
    Start,
    /// The connections that are being established were polled, and this is the
    /// answer.
    Peers(Poll<P>),
    /// The transport at that place of the walk was polled, and this is its
    /// answer.
    Transport(usize, Poll<TransportEvent<U, E>>),
}

/// What a poll of a [`Node`] comes to.
pub enum Step<Ev> {
    /// An event to emit.
    Ready(Ev),
    /// The connections that are being established are to be polled.
    PollPeers,
    /// The transport at that place of the walk is to be polled.
    PollTransport(usize),
    /// There is nothing to emit yet.
    Pending,
}

/// Whether the outcome of a dial leads from `pre` to `post` with the answer `res`:
/// a connection that is being established is waited for; an error is handed on,
/// and nothing changes.
pub open spec fn dial_noted<D, U, E>(
    pre: Manager<D, U>,
    remote_peer_id: PeerId,
    remote_address: Multiaddr,
    outcome: Result<D, TransportError<E>>,
    post: Manager<D, U>,
    res: Result<(), Error<E>>,
) -> bool {
    match outcome {
        Ok(dial) => {
            &&& res == Ok::<(), Error<E>>(())
            &&& post.outgoing@ == pre.outgoing@.push(
                Outgoing { peer_id: remote_peer_id, dial, address: remote_address },
            )
            &&& post.incoming == pre.incoming
        },
        Err(err) => {
            &&& res == Err::<(), Error<E>>(Error::Transport(err))
            &&& post == pre
        },
    }
}

/// The answer to a listen, from the answer of the transport.
pub open spec fn listen_answer<E>(outcome: Result<(), TransportError<E>>) -> Result<(), Error<E>> {
    match outcome {
        Ok(()) => Ok(()),
        Err(err) => Err(Error::Transport(err)),
    }
}

/// Answers a listen with the answer of the transport.
pub fn answer_listen<E>(outcome: Result<(), TransportError<E>>) -> (res: Result<(), Error<E>>)
    ensures
        res == listen_answer(outcome),
{
    match outcome {
        Ok(()) => Ok(()),
        Err(err) => Err(Error::Transport(err)),
    }
}

impl<T: Transport, Ev> Node<T, Ev> {
    /// No protocol has two transports, and each of them can be asked.
    pub open spec fn wf(self) -> bool {
        &&& self.transports.wf()
        &&& forall|i: int|
            0 <= i < self.transports@.len() ==> (#[trigger] self.transports@[i]).1.wf()
    }

    /// Whether a dial may lead from `pre` to `post` with the answer `res`.
    ///
    /// An address that no transport can be chosen for is refused, and nothing
    /// changes. Otherwise the transport for its protocol is asked, with that
    /// address, and its answer decides.
    pub open spec fn dialed(
        pre: Self,
        remote_peer_id: PeerId,
        remote_address: Multiaddr,
        post: Self,
        res: Result<(), Error<T::Error>>,
    ) -> bool {
        match protocol_of(components_of(remote_address)) {
            None => {
                &&& post == pre
                &&& res == Err::<(), Error<T::Error>>(Error::NoProtocolsInMultiaddr(remote_address))
            },
            Some(protocol) => match slot(pre.transports@, protocol) {
                None => {
                    &&& post == pre
                    &&& res == Err::<(), Error<T::Error>>(Error::TransportNotFound(protocol))
                },
                Some(i) => {
                    &&& post.peer_id == pre.peer_id
                    &&& post.pending_events == pre.pending_events
                    &&& exists|transport: T, outcome: Result<T::Dial, TransportError<T::Error>>|
                        {
                            &&& #[trigger] T::dial_step(
                                pre.transports@[i].1,
                                remote_address,
                                transport,
                                outcome,
                            )
                            &&& post.transports@ == pre.transports@.update(
                                i,
                                (protocol, transport),
                            )
                            &&& dial_noted(
                                pre.peer_manager,
                                remote_peer_id,
                                remote_address,
                                outcome,
                                post.peer_manager,
                                res,
                            )
                        }
                },
            },
        }
    }

    /// Whether a listen may lead from `pre` to `post` with the answer `res`.
    ///
    /// An address that no transport can be chosen for is refused, and nothing
    /// changes. Otherwise the transport for its protocol is asked, with that
    /// address, and its answer is the answer.
    pub open spec fn listened(
        pre: Self,
        address: Multiaddr,
        post: Self,
        res: Result<(), Error<T::Error>>,
    ) -> bool {
        match protocol_of(components_of(address)) {
            None => {
                &&& post == pre
                &&& res == Err::<(), Error<T::Error>>(Error::NoProtocolsInMultiaddr(address))
            },
            Some(protocol) => match slot(pre.transports@, protocol) {
                None => {
                    &&& post == pre
                    &&& res == Err::<(), Error<T::Error>>(Error::TransportNotFound(protocol))
                },
                Some(i) => {
                    &&& post.peer_id == pre.peer_id
                    &&& post.pending_events == pre.pending_events
                    &&& post.peer_manager == pre.peer_manager
                    &&& exists|transport: T, outcome: Result<(), TransportError<T::Error>>|
                        {
                            &&& #[trigger] T::listen_step(
                                pre.transports@[i].1,
                                address,
                                transport,
                                outcome,
                            )
                            &&& post.transports@ == pre.transports@.update(
                                i,
                                (protocol, transport),
                            )
                            &&& res == listen_answer(outcome)
                        }
                },
            },
        }
    }

    /// Whether `res` is a node made of just these, which waits for nothing and has
    /// nothing to emit.
    pub open spec fn created(peer_id: PeerId, transports: TransportMap<T>, res: Self) -> bool {
        &&& res.peer_id == peer_id
        &&& res.transports == transports
        &&& res.peer_manager.outgoing@ == Seq::<Outgoing<T::Dial>>::empty()
        &&& res.peer_manager.incoming@ == Seq::<Incoming<T::ListenerUpgrade>>::empty()
        &&& res.pending_events@ == Seq::<Ev>::empty()
    }

    /// Creates a node that waits for nothing and has nothing to emit.
    pub fn new(peer_id: PeerId, transports: TransportMap<T>) -> (res: Self)
        requires
            transports.wf(),
            forall|i: int| 0 <= i < transports@.len() ==> (#[trigger] transports@[i]).1.wf(),
        ensures
            res.wf(),
            Self::created(peer_id, transports, res),
    {
        Node {
            peer_id,
            transports,
            peer_manager: Manager::new(),
            pending_events: VecDeque::new(),
        }
    }

    /// Takes note of a dial to `remote_peer_id` at `remote_address` that came out
    /// as `outcome`.
    pub fn note_dial(
        &mut self,
        remote_peer_id: PeerId,
        remote_address: Multiaddr,
        outcome: Result<T::Dial, TransportError<T::Error>>,
    ) -> (res: Result<(), Error<T::Error>>)
        ensures
            final(self).peer_id == old(self).peer_id,
            final(self).transports == old(self).transports,
            final(self).pending_events == old(self).pending_events,
            dial_noted(
                old(self).peer_manager,
                remote_peer_id,
                remote_address,
                outcome,
                final(self).peer_manager,
                res,
            ),
    {
        match outcome {
            Ok(dial) => {
                self.peer_manager.add_outgoing(remote_peer_id, dial, remote_address);
                Ok(())
            },
            Err(err) => Err(Error::Transport(err)),
        }
    }

    /// Dials `remote_peer_id` at `remote_address`, over the transport for the
    /// protocol of the address.
    pub fn dial(&mut self, remote_peer_id: PeerId, remote_address: Multiaddr) -> (res: Result<
        (),
        Error<T::Error>,
    >)
        requires
            old(self).wf(),
        ensures
            final(self).wf(),
            Self::dialed(*old(self), remote_peer_id, remote_address, *final(self), res),
    {
        let protocol = match extract_protocol_from_multiaddr(&remote_address) {
            Ok(protocol) => protocol,
            Err(err) => {
                return Err(err);
            },
        };
        let outcome = match self.transports.get_mut(protocol) {
            Some(transport) => transport.dial(remote_address.clone()),
            None => {
                return Err(Error::TransportNotFound(protocol));
            },
        };
        self.note_dial(remote_peer_id, remote_address, outcome)
    }

    /// Listens on `address`, over the transport for the protocol of the address.
    pub fn listen(&mut self, address: Multiaddr) -> (res: Result<(), Error<T::Error>>)
        requires
            old(self).wf(),
        ensures
            final(self).wf(),
            Self::listened(*old(self), address, *final(self), res),
    {
        let protocol = match extract_protocol_from_multiaddr(&address) {
            Ok(protocol) => protocol,
            Err(err) => {
                return Err(err);
            },
        };
        match self.transports.get_mut(protocol) {
            Some(transport) => answer_listen(transport.listen_on(address)),
            None => Err(Error::TransportNotFound(protocol)),
        }
    }

    /// Takes in an event of the connections that are being established. There is
    /// nothing to do about it.
    pub fn handle_peer_event<P>(&mut self, event: P)
        ensures
            *final(self) == *old(self),
    {
        let _ = event;
    }

    /// Takes in an event of a transport: an incoming connection is waited for from
    /// now on; about the others there is nothing to do.
    pub fn handle_transport_event(&mut self, event: TransportEvent<T::ListenerUpgrade, T::Error>)
        ensures
            Self::event_handled(*old(self), event, *final(self)),
    {
        match event {
            TransportEvent::Incoming { remote_addr, local_addr, upgrade } => {
                self.peer_manager.add_incoming(upgrade, local_addr, remote_addr);
            },
            TransportEvent::ListenAddress { address: _ } => {},
            TransportEvent::AddressExpired { address: _ } => {},
            TransportEvent::ListenerError { error: _ } => {},
            TransportEvent::ListenerClosed { reason: _ } => {},
        }
    }

    /// Whether taking in `event` leads from `pre` to `post`.
    pub open spec fn event_handled(
        pre: Self,
        event: TransportEvent<T::ListenerUpgrade, T::Error>,
        post: Self,
    ) -> bool {
        match event {
            TransportEvent::Incoming { remote_addr, local_addr, upgrade } => {
                &&& post.peer_id == pre.peer_id
                &&& post.transports == pre.transports
                &&& post.pending_events == pre.pending_events
                &&& post.peer_manager.outgoing == pre.peer_manager.outgoing
                &&& post.peer_manager.incoming@ == pre.peer_manager.incoming@.push(
                    Incoming { upgrade, local_addr, remote_addr },
                )
            },
            _ => post == pre,
        }
    }

    /// Whether a round of polling that begins in `pre` leads to `post` with the step
    /// `res`: an event that is still to be emitted is emitted; if there is none,
    /// the connections that are being established come first.
    pub open spec fn round_begun(pre: Self, post: Self, res: Step<Ev>) -> bool {
        if pre.pending_events@.len() > 0 {
            &&& res == Step::Ready(pre.pending_events@.first())
            &&& post.pending_events@ == pre.pending_events@.drop_first()
            &&& post.peer_id == pre.peer_id
            &&& post.transports == pre.transports
            &&& post.peer_manager == pre.peer_manager
        } else {
            &&& res == Step::<Ev>::PollPeers
            &&& post == pre
        }
    }

    /// The step by which the walk over the transports goes on at the place `i`.
    pub open spec fn walk_from(self, i: int) -> Step<Ev> {
        if i < self.transports@.len() {
            Step::PollTransport(i as usize)
        } else {
            Step::Pending
        }
    }

    /// Whether a poll that has come as far as `progress` says leads from `pre` to
    /// `post` with the step `res`.
    ///
    /// Whatever turns out to be ready is taken in, and a new round begins;
    /// whatever is not is passed over, and a round ends with the last transport.
    pub open spec fn polled<P>(
        pre: Self,
        progress: Progress<P, T::ListenerUpgrade, T::Error>,
        post: Self,
        res: Step<Ev>,
    ) -> bool {
        match progress {
            Progress::Start => Self::round_begun(pre, post, res),
            Progress::Peers(Poll::Ready(_)) => Self::round_begun(pre, post, res),
            Progress::Peers(Poll::Pending) => post == pre && res == pre.walk_from(0),
            Progress::Transport(_, Poll::Ready(event)) => exists|between: Self| #[trigger]
                Self::event_handled(pre, event, between) && Self::round_begun(between, post, res),
            Progress::Transport(i, Poll::Pending) => post == pre && res == pre.walk_from(i + 1),
        }
    }

    fn begin_round(&mut self) -> (res: Step<Ev>)
        ensures
            Self::round_begun(*old(self), *final(self), res),
    {
        if self.pending_events.len() == 0 {
            return Step::PollPeers;
        }
        match self.pending_events.pop_front() {
            Some(event) => Step::Ready(event),
            None => Step::PollPeers,
        }
    }

    /// Drives a poll of the node one step on.
    ///
    /// A poll begins with [`Progress::Start`]. What the step asks for is to be
    /// polled, and the answer is to be handed in, until the step is
    /// [`Step::Ready`] or [`Step::Pending`].
    pub fn poll_next_event<P>(
        &mut self,
        progress: Progress<P, T::ListenerUpgrade, T::Error>,
    ) -> (res: Step<Ev>)
        ensures
            Self::polled(*old(self), progress, *final(self), res),
    {
        match progress {
            Progress::Start => self.begin_round(),
            Progress::Peers(Poll::Ready(event)) => {
                self.handle_peer_event(event);
                self.begin_round()
            },
            Progress::Peers(Poll::Pending) => {
                if self.transports.len() > 0 {
                    Step::PollTransport(0)
                } else {
                    Step::Pending
                }
            },
            Progress::Transport(_, Poll::Ready(event)) => {
                self.handle_transport_event(event);
                self.begin_round()
            },
            Progress::Transport(i, Poll::Pending) => {
                if i < self.transports.len() && i + 1 < self.transports.len() {
                    Step::PollTransport(i + 1)
                } else {
                    Step::Pending
                }
            },
        }
    }
}

} // verus!
