//! Connected UDP sockets without the I/O.
//!
//! A datagram socket that has been connected to one remote peer is a narrower
//! thing than a general datagram socket: it sends without naming a
//! destination, receives without learning a source, and always has a peer.
//! [`ConnectedUdpSocket`] is the type of such a socket. A value of it can only
//! be obtained from a host answer that shows the socket to be connected, so
//! holding one is proof that a peer exists and which one it is.
//!
//! This crate talks to no operating system. The socket itself is a type
//! parameter that the crate owns and lends out but never looks into; the
//! host's answers come in as plain values ([`SocketAddress`], [`Error`]).
//! Whoever performs the host calls passes their results to the constructors
//! here, and Verus proves what the constructors make of them.

pub mod addr;
pub mod error;
pub mod socket;

pub use addr::SocketAddress;
pub use error::Error;
pub use error::ErrorKind;
pub use socket::Association;
pub use socket::ConnectedUdpSocket;
