//! The verified core of a peer-to-peer transport.
//!
//! - [`transport`]: what a transport is, the events it reports and the errors
//!   it answers with.
//! - [`protocol`]: the protocols that a node can route an address to.
//! - [`address`]: multiaddresses, as sequences of components, and socket
//!   addresses.
//! - [`webtransport`]: the WebTransport transport: which addresses it dials and
//!   listens on, and the order in which its events come out.
//! - [`node`]: a node with its transports: routing of dials and listens, and the
//!   schedule by which it polls what it owns.
//! - [`transports`], [`peer`], [`error`]: what a node consists of and answers.
//! - [`laws`]: what holds of a node as a whole.
//! - [`web_laws`]: what holds of the WebTransport transport as a whole.

pub mod address;
pub mod error;
pub mod laws;
pub mod node;
pub mod peer;
pub mod protocol;
pub mod transport;
pub mod transports;
pub mod util;
pub mod web_laws;
pub mod webtransport;

pub use protocol::Protocol;
pub use transport::Transport;
