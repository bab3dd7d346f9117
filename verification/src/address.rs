//! Multiaddresses, as sequences of components, and socket addresses.

use libp2p_identity::PeerId;
use multiaddr::Multiaddr;
use vstd::prelude::*;

verus! {

/// `multiaddr::Multiaddr`, the self-describing network address. What it holds
/// is named by [`components_of`].
#[verifier::external_type_specification]
#[verifier::external_body]
pub struct ExMultiaddr(multiaddr::Multiaddr);

/// `libp2p_identity::PeerId`, the identity of a peer. It is only carried.
#[verifier::external_type_specification]
#[verifier::external_body]
pub struct ExPeerId(libp2p_identity::PeerId);

/// `Multiaddr::clone`. Trusted: it duplicates the address; the derived impl
/// shares the one reference-counted buffer that an address consists of.
pub assume_specification[ <Multiaddr as Clone>::clone ](addr: &Multiaddr) -> (res: Multiaddr)
    ensures
        res == *addr,
;

/// One component of a multiaddress, as far as this library tells components
/// apart. IP addresses are numbers whose highest byte is the first octet.
#[derive(Clone, Copy, Debug)]
pub enum Component {
    /// `/ip4/..`
    Ip4(u32),
    /// `/ip6/..`
    Ip6(u128),
    /// `/tcp/..`
    Tcp(u16),
    /// `/udp/..`
    Udp(u16),
    /// `/quic-v1`
    QuicV1,
    /// `/webtransport`
    WebTransport,
    /// `/p2p/..`
    P2p(PeerId),
    /// A component of any other protocol.
    Other,
}

/// The components that a multiaddress holds, first to last.
pub uninterp spec fn components_of(addr: Multiaddr) -> Seq<Component>;

/// `Multiaddr::iter`, run to its end. Trusted: the components that the
/// multiaddress holds come out in order, one for one; every address that the
/// outside crate lets exist decodes, so the walk does not fail.
#[verifier::external_body]
pub(crate) fn components(addr: &Multiaddr) -> (res: Vec<Component>)
    ensures
        res@ == components_of(*addr),
{
    addr.iter().map(|part| match part {
        multiaddr::Protocol::Ip4(ip) => Component::Ip4(ip.into()),
        multiaddr::Protocol::Ip6(ip) => Component::Ip6(ip.into()),
        multiaddr::Protocol::Tcp(port) => Component::Tcp(port),
        multiaddr::Protocol::Udp(port) => Component::Udp(port),
        multiaddr::Protocol::QuicV1 => Component::QuicV1,
        multiaddr::Protocol::WebTransport => Component::WebTransport,
        multiaddr::Protocol::P2p(id) => Component::P2p(id),
        _ => Component::Other,
    }).collect()
}

/// The text form of a multiaddress.
pub uninterp spec fn text_of(addr: Multiaddr) -> Seq<char>;

/// `Multiaddr`'s `Display`. Trusted: what is written is the text form of the
/// address, and a function of the address alone.
#[verifier::external_body]
pub(crate) fn multiaddr_text(addr: &Multiaddr) -> (res: String)
    ensures
        res@ == text_of(*addr),
{
    addr.to_string()
}

/// An IP address, as a number whose highest byte is the first octet.
#[derive(Clone, Copy, Debug, PartialEq, Eq, Structural)]
pub enum IpAddr {
    /// An IPv4 address.
    V4(u32),
    /// An IPv6 address.
    V6(u128),
}

impl IpAddr {
    /// The multiaddress component that spells this IP address.
    pub open spec fn component(self) -> Component {
        match self {
            IpAddr::V4(ip) => Component::Ip4(ip),
            IpAddr::V6(ip) => Component::Ip6(ip),
        }
    }
}

/// An IP address and a port.
#[derive(Clone, Copy, Debug, PartialEq, Eq, Structural)]
pub struct SocketAddr {
    /// The IP address.
    pub ip: IpAddr,
    /// The port.
    pub port: u16,
}

impl SocketAddr {
    /// The socket address with that IP address and that port.
    pub fn new(ip: IpAddr, port: u16) -> (res: SocketAddr)
        ensures
            res == (SocketAddr { ip, port }),
    {
        SocketAddr { ip, port }
    }
}

} // verus!
