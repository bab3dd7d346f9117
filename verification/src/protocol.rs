//! The protocols that transports speak.

use vstd::prelude::*;

verus! {

/// A protocol that a transport can dial, named after the multiaddress
/// component that announces it.
#[derive(Clone, Copy, Debug, PartialEq, Eq, Hash, Structural)]
pub enum Protocol {
    /// WebTransport: HTTP/3 for the control channel, QUIC for the data.
    WebTransport,
}

} // verus!
