//! What a node answers when it cannot dial or listen.

use multiaddr::Multiaddr;
use vstd::prelude::*;

use crate::protocol::Protocol;
use crate::transport::TransportError;

verus! {

/// Why a node could not dial or listen.
#[derive(Debug)]
pub enum Error<E> {
    /// No component of the address names a protocol that a transport speaks.
    ///
    /// Contains back the same address.
    NoProtocolsInMultiaddr(Multiaddr),
    /// The node has no transport for the protocol.
    TransportNotFound(Protocol),
    /// The transport refused.
    Transport(TransportError<E>),
}

} // verus!
