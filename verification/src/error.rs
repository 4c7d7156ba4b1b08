//! The server's error taxonomy.

use vstd::prelude::*;

verus! {

/// Everything that can go wrong around the server's sockets and
/// queues.  Transport details (the underlying OS error) stay at the
/// socket edge; the library carries only the kind.
#[derive(Clone, Copy, Debug, PartialEq, Eq, Structural)]
pub enum Error {
    /// A handshake arrived in a state that cannot accept it.
    InvalidState,
    /// The TCP listener or an accepted stream failed.
    TcpSocketError,
    /// The operator UDP socket failed.
    UdpSocketError,
    /// The CAN socket failed to open, read or write.
    CanSocketError,
    /// A bind address could not be resolved.
    InvalidAddr,
    /// The operator UDP socket was used before it was bound.
    UninitializedUdpSocket,
    /// The CAN socket was used before it was opened.
    UninitializedCanSocket,
    /// A peer or configuration address failed to parse.
    AddrParseError,
    /// A TCP request could not be answered.
    UnableToHandleTcpMessage,
}

} // verus!
