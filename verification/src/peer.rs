//! The connections that a node is still waiting for.

use libp2p_identity::PeerId;
use multiaddr::Multiaddr;
use vstd::prelude::*;

verus! {

/// A connection to a remote peer that is being established.
pub struct Outgoing<D> {
    /// The peer at the other end.
    pub peer_id: PeerId,
    /// What has to be driven for the connection to come about.
    pub dial: D,
    /// The address that is dialed.
    pub address: Multiaddr,
}

/// A connection from a remote peer that is being established.
pub struct Incoming<U> {
    /// What has to be driven for the connection to come about.
    pub upgrade: U,
    /// The address on which the connection was received.
    pub local_addr: Multiaddr,
    /// The address of the peer at the other end.
    pub remote_addr: Multiaddr,
}

/// Keeps the connections that are being established, in the order in which they
/// were begun.
pub struct Manager<D, U> {
    /// The connections to remote peers.
    pub outgoing: Vec<Outgoing<D>>,
    /// The connections from remote peers.
    pub incoming: Vec<Incoming<U>>,
}

impl<D, U> Manager<D, U> {
    /// A manager that waits for nothing.
    pub fn new() -> (res: Self)
        ensures
            res.outgoing@ == Seq::<Outgoing<D>>::empty(),
            res.incoming@ == Seq::<Incoming<U>>::empty(),
    {
        Manager { outgoing: Vec::new(), incoming: Vec::new() }
    }

    /// Waits for a connection to `peer_id` at `address` from now on.
    pub fn add_outgoing(&mut self, peer_id: PeerId, dial: D, address: Multiaddr)
        ensures
            final(self).outgoing@ == old(self).outgoing@.push(Outgoing { peer_id, dial, address }),
            final(self).incoming == old(self).incoming,
    {
        self.outgoing.push(Outgoing { peer_id, dial, address });
    }

    /// Waits for a connection from `remote_addr` from now on.
    pub fn add_incoming(&mut self, upgrade: U, local_addr: Multiaddr, remote_addr: Multiaddr)
        ensures
            final(self).outgoing == old(self).outgoing,
            final(self).incoming@ == old(self).incoming@.push(
                Incoming { upgrade, local_addr, remote_addr },
            ),
    {
        self.incoming.push(Incoming { upgrade, local_addr, remote_addr });
    }
}

} // verus!
