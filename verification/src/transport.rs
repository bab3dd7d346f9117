//! What a transport is, the events it reports and the errors it answers with.

use multiaddr::Multiaddr;
use vstd::prelude::*;
use vstd::string::*;

use crate::address::{multiaddr_text, text_of};
use crate::protocol::Protocol;

verus! {

/// The answer to asking something whether it is ready.
#[derive(Debug)]
pub enum Poll<T> {
    /// It is, and this came of it.
    Ready(T),
    /// Not yet.
    Pending,
}

/// Why a transport refused to dial or to listen.
#[derive(Debug, Clone)]
pub enum TransportError<TErr> {
    /// The multiaddress passed as parameter is not supported.
    ///
    /// Contains back the same address.
    MultiaddrNotSupported(Multiaddr),
    /// Any other error that a [`Transport`] may produce.
    Other(TErr),
}

/// Whether `res` is `error` with `map` applied to the error inside, if it is a
/// [`TransportError::Other`].
pub open spec fn error_mapped<A, B, F: FnOnce(A) -> B>(
    error: TransportError<A>,
    map: F,
    res: TransportError<B>,
) -> bool {
    match error {
        TransportError::MultiaddrNotSupported(addr) => res
            == TransportError::<B>::MultiaddrNotSupported(addr),
        TransportError::Other(err) => {
            &&& res is Other
            &&& map.ensures((err,), res->Other_0)
        },
    }
}

/// The error underneath, if there is one.
pub open spec fn error_underneath<TErr>(error: TransportError<TErr>) -> Option<TErr> {
    match error {
        TransportError::MultiaddrNotSupported(_) => None,
        TransportError::Other(err) => Some(err),
    }
}

/// The text to show for an error.
pub open spec fn message_of(error: TransportError<String>) -> Seq<char> {
    match error {
        TransportError::MultiaddrNotSupported(addr) => "Multiaddr is not supported: "@ + text_of(
            addr,
        ),
        TransportError::Other(err) => "Transport error other error: "@ + err@,
    }
}

impl<TErr> TransportError<TErr> {
    /// Applies a function to the contained error if this is a
    /// [`TransportError::Other`], leaving a
    /// [`TransportError::MultiaddrNotSupported`] untouched.
    ///
    /// This is useful for changing the type of the error.
    pub fn map<TNewErr>(self, map: impl FnOnce(TErr) -> TNewErr) -> (res: TransportError<TNewErr>)
        requires
            self is Other ==> map.requires((self->Other_0,)),
        ensures
            error_mapped(self, map, res),
    {
        match self {
            TransportError::MultiaddrNotSupported(addr) => {
                TransportError::MultiaddrNotSupported(addr)
            },
            TransportError::Other(err) => TransportError::Other(map(err)),
        }
    }

    /// The error underneath, if this is a [`TransportError::Other`].
    pub fn source(&self) -> (res: Option<&TErr>)
        ensures
            res == match error_underneath(*self) {
                Some(err) => Some(&err),
                None => None::<&TErr>,
            },
    {
        match self {
            TransportError::MultiaddrNotSupported(_) => None,
            TransportError::Other(err) => Some(err),
        }
    }
}

impl TransportError<String> {
    /// The text to show for this error, in which the error underneath is
    /// already given as text.
    pub fn to_message(&self) -> (res: String)
        ensures
            res@ == message_of(*self),
    {
        match self {
            TransportError::MultiaddrNotSupported(addr) => {
                let mut res = "Multiaddr is not supported: ".to_owned();
                res.append(multiaddr_text(addr).as_str());
                res
            },
            TransportError::Other(err) => {
                let mut res = "Transport error other error: ".to_owned();
                res.append(err.as_str());
                res
            },
        }
    }
}

/// Events that can occur on a [`Transport`].
#[derive(Debug)]
pub enum TransportEvent<TUpgrade, TError> {
    /// A new incoming connection is pending.
    ///
    /// The `upgrade` has to be driven to complete the connection setup.
    Incoming {
        /// The address of the remote peer that initiated the connection.
        remote_addr: Multiaddr,
        /// The local address on which the connection was received.
        local_addr: Multiaddr,
        /// The pending connection upgrade.
        upgrade: TUpgrade,
    },
    /// The transport is now listening on the given address.
    ListenAddress {
        /// The address the transport is now listening on.
        address: Multiaddr,
    },
    /// A previously established listen address has expired or is no longer
    /// valid.
    AddressExpired {
        /// The address that has expired.
        address: Multiaddr,
    },
    /// An error occurred on one of the listeners.
    ListenerError {
        /// The error that occurred.
        error: TError,
    },
    /// A listener has been closed.
    ///
    /// The `reason` is `Ok(())` for a clean close, or the error that closed it.
    ListenerClosed {
        /// The reason for the listener closing.
        reason: Result<(), TError>,
    },
}

/// Whether `res` is `event` with `map` applied to the upgrade, if there is one,
/// and all else kept.
pub open spec fn upgrade_mapped<A, B, E, F: FnOnce(A) -> B>(
    event: TransportEvent<A, E>,
    map: F,
    res: TransportEvent<B, E>,
) -> bool {
    match event {
        TransportEvent::Incoming { remote_addr, local_addr, upgrade } => {
            &&& res is Incoming
            &&& res->Incoming_remote_addr == remote_addr
            &&& res->Incoming_local_addr == local_addr
            &&& map.ensures((upgrade,), res->Incoming_upgrade)
        },
        TransportEvent::ListenAddress { address } => res == TransportEvent::<
            B,
            E,
        >::ListenAddress { address },
        TransportEvent::AddressExpired { address } => res == TransportEvent::<
            B,
            E,
        >::AddressExpired { address },
        TransportEvent::ListenerError { error } => res == TransportEvent::<
            B,
            E,
        >::ListenerError { error },
        TransportEvent::ListenerClosed { reason } => res == TransportEvent::<
            B,
            E,
        >::ListenerClosed { reason },
    }
}

/// The error that an event carries, if it carries one.
pub open spec fn carried_error<U, E>(event: TransportEvent<U, E>) -> Option<E> {
    match event {
        TransportEvent::ListenerError { error } => Some(error),
        TransportEvent::ListenerClosed { reason: Err(error) } => Some(error),
        _ => None,
    }
}

/// Whether `res` is `event` with `map` applied to the error, if there is one,
/// and all else kept.
pub open spec fn err_mapped<U, A, B, F: FnOnce(A) -> B>(
    event: TransportEvent<U, A>,
    map: F,
    res: TransportEvent<U, B>,
) -> bool {
    match event {
        TransportEvent::Incoming { remote_addr, local_addr, upgrade } => res == TransportEvent::<
            U,
            B,
        >::Incoming { remote_addr, local_addr, upgrade },
        TransportEvent::ListenAddress { address } => res == TransportEvent::<
            U,
            B,
        >::ListenAddress { address },
        TransportEvent::AddressExpired { address } => res == TransportEvent::<
            U,
            B,
        >::AddressExpired { address },
        TransportEvent::ListenerError { error } => {
            &&& res is ListenerError
            &&& map.ensures((error,), res->ListenerError_error)
        },
        TransportEvent::ListenerClosed { reason: Ok(_) } => res == TransportEvent::<
            U,
            B,
        >::ListenerClosed { reason: Ok(()) },
        TransportEvent::ListenerClosed { reason: Err(error) } => {
            &&& res is ListenerClosed
            &&& res->ListenerClosed_reason is Err
            &&& map.ensures((error,), res->ListenerClosed_reason->Err_0)
        },
    }
}

impl<TUpgr, TErr> TransportEvent<TUpgr, TErr> {
    /// In case this event is an [`Incoming`](TransportEvent::Incoming), applies
    /// the given function to the upgrade.
    pub fn map_upgrade<U>(self, map: impl FnOnce(TUpgr) -> U) -> (res: TransportEvent<U, TErr>)
        requires
            self is Incoming ==> map.requires((self->Incoming_upgrade,)),
        ensures
            upgrade_mapped(self, map, res),
    {
        match self {
            TransportEvent::Incoming { upgrade, local_addr, remote_addr } => {
                TransportEvent::Incoming { upgrade: map(upgrade), local_addr, remote_addr }
            },
            TransportEvent::ListenAddress { address } => TransportEvent::ListenAddress { address },
            TransportEvent::AddressExpired { address } => {
                TransportEvent::AddressExpired { address }
            },
            TransportEvent::ListenerError { error } => TransportEvent::ListenerError { error },
            TransportEvent::ListenerClosed { reason } => TransportEvent::ListenerClosed { reason },
        }
    }

    /// In case this event is a [`ListenerError`](TransportEvent::ListenerError),
    /// or a [`ListenerClosed`](TransportEvent::ListenerClosed) for an error,
    /// applies the given function to the error.
    pub fn map_err<E>(self, map_err: impl FnOnce(TErr) -> E) -> (res: TransportEvent<TUpgr, E>)
        requires
            carried_error(self) is Some ==> map_err.requires((carried_error(self)->Some_0,)),
        ensures
            err_mapped(self, map_err, res),
    {
        match self {
            TransportEvent::Incoming { upgrade, local_addr, remote_addr } => {
                TransportEvent::Incoming { upgrade, local_addr, remote_addr }
            },
            TransportEvent::ListenAddress { address } => TransportEvent::ListenAddress { address },
            TransportEvent::AddressExpired { address } => {
                TransportEvent::AddressExpired { address }
            },
            TransportEvent::ListenerError { error } => {
                TransportEvent::ListenerError { error: map_err(error) }
            },
            TransportEvent::ListenerClosed { reason } => match reason {
                Ok(()) => TransportEvent::ListenerClosed { reason: Ok(()) },
                Err(error) => TransportEvent::ListenerClosed { reason: Err(map_err(error)) },
            },
        }
    }
}

/// A network transport: a way to establish connections to remote peers
/// (dialing) and to accept connections from them (listening).
///
/// What a call of a transport does is the transport's own affair. Each has its
/// *steps*: which states it may go to, with which answer, from a given state and
/// address. A transport that does not say promises nothing.
pub trait Transport: Sized {
    /// The error that can occur while dialing or listening.
    type Error;

    /// An outgoing connection that is being established.
    type Dial;

    /// An incoming connection that is being established. It comes with a
    /// [`TransportEvent::Incoming`].
    type ListenerUpgrade;

    /// Whether the transport is in a state in which it can be asked.
    open spec fn wf(self) -> bool {
        true
    }

    /// Whether a transport in the state `pre`, asked to dial `address`, may answer
    /// `res` and be in the state `post`.
    open spec fn dial_step(
        pre: Self,
        address: Multiaddr,
        post: Self,
        res: Result<Self::Dial, TransportError<Self::Error>>,
    ) -> bool {
        true
    }

    /// Whether a transport in the state `pre`, asked to listen on `address`, may
    /// answer `res` and be in the state `post`.
    open spec fn listen_step(
        pre: Self,
        address: Multiaddr,
        post: Self,
        res: Result<(), TransportError<Self::Error>>,
    ) -> bool {
        true
    }

    /// Returns the [`Protocol`] that this transport can dial.
    fn supported_protocols_for_dialing(&self) -> Protocol;

    /// Dials a remote peer at the given address.
    ///
    /// If the address is supported, returns what has to be driven for the
    /// connection to come about; the dialing itself happens only then. Returns an
    /// error if the address is not supported by this transport, or if another
    /// preliminary error occurs.
    fn dial(&mut self, address: Multiaddr) -> (res: Result<
        Self::Dial,
        TransportError<Self::Error>,
    >)
        requires
            old(self).wf(),
        ensures
            final(self).wf(),
            Self::dial_step(*old(self), address, *final(self), res),
    ;

    /// Instructs the transport to start listening on the given address.
    ///
    /// `Ok(())` says that the transport can attempt to listen on the address; an
    /// event reports the outcome later. Returns an error if the address is not
    /// supported or another error prevents listening from being attempted.
    ///
    /// Several calls can be made to listen on several addresses.
    fn listen_on(&mut self, address: Multiaddr) -> (res: Result<(), TransportError<Self::Error>>)
        requires
            old(self).wf(),
        ensures
            final(self).wf(),
            Self::listen_step(*old(self), address, *final(self), res),
    ;
}

/// What is underneath an error is what it was made of: there is an error underneath
/// exactly those that are not about an address.
pub proof fn law_error_underneath<TErr>(error: TransportError<TErr>, err: TErr)
    ensures
        error_underneath(error) is None <==> error is MultiaddrNotSupported,
        error_underneath(error) == Some(err) <==> error == TransportError::Other(err),
{
}

/// The text for an error ends with what the error is about, the address or the
/// error underneath, in full; before that stands which of the two it is.
pub proof fn law_message_names_its_subject(error: TransportError<String>, subject: Seq<char>)
    requires
        match error {
            TransportError::MultiaddrNotSupported(addr) => subject == text_of(addr),
            TransportError::Other(err) => subject == err@,
        },
    ensures
        message_of(error).len() >= subject.len(),
        message_of(error).skip(message_of(error).len() - subject.len()) == subject,
        message_of(error).take(message_of(error).len() - subject.len()) == (
        if error is MultiaddrNotSupported {
            "Multiaddr is not supported: "@
        } else {
            "Transport error other error: "@
        }),
{
    let message = message_of(error);
    assert(message.skip(message.len() - subject.len()) =~= subject);
    assert(message.take(message.len() - subject.len()) =~= (if error is MultiaddrNotSupported {
        "Multiaddr is not supported: "@
    } else {
        "Transport error other error: "@
    }));
}

/// Mapping an error keeps which kind it is and the address that it gives back, and
/// it maps the error underneath, which is the only thing that it may change.
pub proof fn law_error_map<A, B, F: FnOnce(A) -> B>(
    error: TransportError<A>,
    map: F,
    res: TransportError<B>,
)
    requires
        error_mapped(error, map, res),
    ensures
        error is Other <==> res is Other,
        error is MultiaddrNotSupported ==> res->MultiaddrNotSupported_0
            == error->MultiaddrNotSupported_0,
        error is Other ==> map.ensures((error->Other_0,), res->Other_0),
{
}

/// Mapping an error by a function that changes nothing changes nothing.
pub proof fn law_error_map_identity<A, F: FnOnce(A) -> A>(
    error: TransportError<A>,
    map: F,
    res: TransportError<A>,
)
    requires
        error_mapped(error, map, res),
        forall|x: A, y: A| #[trigger] map.ensures((x,), y) ==> y == x,
    ensures
        res == error,
{
}

/// Mapping the upgrade of an event keeps the kind of the event, both addresses,
/// each in its place, and the errors; the new upgrade is made from the old one.
pub proof fn law_upgrade_map<A, B, E, F: FnOnce(A) -> B>(
    event: TransportEvent<A, E>,
    map: F,
    res: TransportEvent<B, E>,
)
    requires
        upgrade_mapped(event, map, res),
    ensures
        event is Incoming <==> res is Incoming,
        event is ListenAddress <==> res is ListenAddress,
        event is AddressExpired <==> res is AddressExpired,
        event is ListenerError <==> res is ListenerError,
        event is ListenerClosed <==> res is ListenerClosed,
        event is Incoming ==> {
            &&& res->Incoming_remote_addr == event->Incoming_remote_addr
            &&& res->Incoming_local_addr == event->Incoming_local_addr
            &&& map.ensures((event->Incoming_upgrade,), res->Incoming_upgrade)
        },
        event is ListenAddress ==> res->ListenAddress_address == event->ListenAddress_address,
        event is AddressExpired ==> res->AddressExpired_address == event->AddressExpired_address,
        event is ListenerError ==> res->ListenerError_error == event->ListenerError_error,
        event is ListenerClosed ==> res->ListenerClosed_reason == event->ListenerClosed_reason,
{
}

/// Mapping the upgrade of an event by a function that changes nothing changes
/// nothing.
pub proof fn law_upgrade_map_identity<A, E, F: FnOnce(A) -> A>(
    event: TransportEvent<A, E>,
    map: F,
    res: TransportEvent<A, E>,
)
    requires
        upgrade_mapped(event, map, res),
        forall|x: A, y: A| #[trigger] map.ensures((x,), y) ==> y == x,
    ensures
        res == event,
{
}

/// Mapping the error of an event keeps the kind of the event, whether a listener was
/// closed cleanly, the addresses, each in its place, and the upgrade; the new error
/// is made from the old one.
pub proof fn law_err_map<U, A, B, F: FnOnce(A) -> B>(
    event: TransportEvent<U, A>,
    map: F,
    res: TransportEvent<U, B>,
)
    requires
        err_mapped(event, map, res),
    ensures
        event is Incoming <==> res is Incoming,
        event is ListenAddress <==> res is ListenAddress,
        event is AddressExpired <==> res is AddressExpired,
        event is ListenerError <==> res is ListenerError,
        event is ListenerClosed <==> res is ListenerClosed,
        event is Incoming ==> {
            &&& res->Incoming_remote_addr == event->Incoming_remote_addr
            &&& res->Incoming_local_addr == event->Incoming_local_addr
            &&& res->Incoming_upgrade == event->Incoming_upgrade
        },
        event is ListenAddress ==> res->ListenAddress_address == event->ListenAddress_address,
        event is AddressExpired ==> res->AddressExpired_address == event->AddressExpired_address,
        event is ListenerError ==> map.ensures(
            (event->ListenerError_error,),
            res->ListenerError_error,
        ),
        event is ListenerClosed ==> (event->ListenerClosed_reason is Ok
            <==> res->ListenerClosed_reason is Ok),
        event is ListenerClosed && event->ListenerClosed_reason is Err ==> map.ensures(
            (event->ListenerClosed_reason->Err_0,),
            res->ListenerClosed_reason->Err_0,
        ),
{
}

/// Mapping the error of an event by a function that changes nothing changes
/// nothing.
pub proof fn law_err_map_identity<U, A, F: FnOnce(A) -> A>(
    event: TransportEvent<U, A>,
    map: F,
    res: TransportEvent<U, A>,
)
    requires
        err_mapped(event, map, res),
        forall|x: A, y: A| #[trigger] map.ensures((x,), y) ==> y == x,
    ensures
        res == event,
{
    if event is ListenerClosed && event->ListenerClosed_reason is Ok {
        assert(event->ListenerClosed_reason->Ok_0 == ());
        assert(res->ListenerClosed_reason->Ok_0 == ());
    }
}

/// The two maps do not interfere: an event whose upgrade is mapped and then its
/// error is an event whose error is mapped and then its upgrade.
pub proof fn law_event_maps_commute<
    A,
    B,
    C,
    D,
    F: FnOnce(A) -> B,
    G: FnOnce(C) -> D,
>(
    event: TransportEvent<A, C>,
    upgrade: F,
    between: TransportEvent<B, C>,
    err: G,
    res: TransportEvent<B, D>,
)
    requires
        upgrade_mapped(event, upgrade, between),
        err_mapped(between, err, res),
    ensures
        exists|other: TransportEvent<A, D>|
            #[trigger] err_mapped(event, err, other) && upgrade_mapped(other, upgrade, res),
{
    let other: TransportEvent<A, D> = match event {
        TransportEvent::Incoming { remote_addr, local_addr, upgrade } => {
            TransportEvent::Incoming { remote_addr, local_addr, upgrade }
        },
        TransportEvent::ListenAddress { address } => TransportEvent::ListenAddress { address },
        TransportEvent::AddressExpired { address } => TransportEvent::AddressExpired { address },
        TransportEvent::ListenerError { error } => TransportEvent::ListenerError {
            error: res->ListenerError_error,
        },
        TransportEvent::ListenerClosed { reason } => TransportEvent::ListenerClosed {
            reason: res->ListenerClosed_reason,
        },
    };
    assert(err_mapped(event, err, other));
    assert(upgrade_mapped(other, upgrade, res));
}

} // verus!
