//! Host failures as plain values.

use vstd::prelude::*;

verus! {

/// The category of a host failure.
#[derive(Clone, Copy, Debug, PartialEq, Eq, Hash, Structural)]
pub enum ErrorKind {
    /// The socket has no peer.
    NotConnected,
    /// The address cannot be used from this host.
    AddrNotAvailable,
    /// An argument was not acceptable to the host.
    InvalidInput,
    /// The operation is not permitted.
    PermissionDenied,
    /// The peer refused the datagram.
    ConnectionRefused,
    /// The peer reset the exchange.
    ConnectionReset,
    /// The host of the peer cannot be reached.
    HostUnreachable,
    /// The network of the peer cannot be reached.
    NetworkUnreachable,
    /// The network is down.
    NetworkDown,
    /// The operation would block on a socket that must not.
    WouldBlock,
    /// The operation ran out of time.
    TimedOut,
    /// The operation was interrupted.
    Interrupted,
    /// Any other failure.
    Other,
}

/// A failure reported by the host, carried as it came: its category and, where
/// the host gave one, its raw error code.
#[derive(Clone, Copy, Debug, PartialEq, Eq, Hash, Structural)]
pub struct Error {
    pub kind: ErrorKind,
    pub code: Option<i32>,
}

} // verus!
