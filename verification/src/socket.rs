//! The connected socket and its two ways into existence.

use vstd::prelude::*;
use crate::addr::SocketAddress;
use crate::error::Error;
use crate::error::ErrorKind;

verus! {

/// What a connected socket is, mathematically: a socket and the one peer it
/// is connected to.
pub struct Association<S> {
    pub socket: S,
    pub peer: SocketAddress,
}

impl<S> Association<S> {
    /// What becomes of `socket` when the host has been asked to connect it to
    /// `peer` and has answered `outcome`: connected to exactly `peer` if the
    /// host agreed, the host's error otherwise.
    pub open spec fn connect(socket: S, peer: SocketAddress, outcome: Result<(), Error>) -> Result<
        Self,
        Error,
    > {
        match outcome {
            Ok(_) => Ok(Association { socket, peer }),
            Err(e) => Err(e),
        }
    }

    /// What becomes of `socket` when the host has been asked for its peer and
    /// has answered `queried`: connected to the peer the host named, or the
    /// host's error.
    pub open spec fn try_from(socket: S, queried: Result<SocketAddress, Error>) -> Result<
        Self,
        Error,
    > {
        match queried {
            Ok(peer) => Ok(Association { socket, peer }),
            Err(e) => Err(e),
        }
    }
}

/// A datagram socket that is connected to one peer.
///
/// The socket is owned, and released when this value is dropped. The peer is
/// fixed when the value is made: every operation takes the value by shared
/// reference, so none can change it.
#[derive(Debug)]
pub struct ConnectedUdpSocket<S> {
    socket: S,
    peer: SocketAddress,
}

impl<S> View for ConnectedUdpSocket<S> {
    type V = Association<S>;

    closed spec fn view(&self) -> Association<S> {
        Association { socket: self.socket, peer: self.peer }
    }
}

/// The outcome of a construction with the socket seen as what it stands for.
pub open spec fn outcome_view<S>(r: Result<ConnectedUdpSocket<S>, Error>) -> Result<
    Association<S>,
    Error,
> {
    match r {
        Ok(c) => Ok(c@),
        Err(e) => Err(e),
    }
}

impl<S> ConnectedUdpSocket<S> {
    /// Makes a connected socket of `socket`, given the host's answer `outcome`
    /// to the request to connect it to `peer`.
    ///
    /// If the host agreed, the result owns `socket` and has `peer` as its
    /// peer. If the host refused, the result is the host's error, unchanged,
    /// and `socket` is dropped.
    pub fn connect(socket: S, peer: SocketAddress, outcome: Result<(), Error>) -> (r: Result<
        Self,
        Error,
    >)
        ensures
            outcome_view(r) == Association::connect(socket, peer, outcome),
    {
        match outcome {
            Ok(()) => Ok(ConnectedUdpSocket { socket, peer }),
            Err(e) => Err(e),
        }
    }

    /// Makes a connected socket of a `socket` that was connected elsewhere,
    /// given the host's answer `queried` to the question who its peer is.
    ///
    /// If the host named a peer, the result owns `socket` and has that peer.
    /// If the host could not, as it cannot for a socket that was never
    /// connected, the result is the host's error, unchanged, and `socket` is
    /// dropped.
    pub fn try_from(socket: S, queried: Result<SocketAddress, Error>) -> (r: Result<Self, Error>)
        ensures
            outcome_view(r) == Association::try_from(socket, queried),
    {
        match queried {
            Ok(peer) => Ok(ConnectedUdpSocket { socket, peer }),
            Err(e) => Err(e),
        }
    }

    /// The peer this socket is connected to.
    pub fn peer_addr(&self) -> (r: SocketAddress)
        ensures
            r == self@.peer,
    {
        self.peer
    }

    /// Lends the underlying socket, for what this type does not offer. The
    /// loan is shared: the socket can be used through it, but neither
    /// replaced nor taken away.
    pub fn as_ref(&self) -> (r: &S)
        ensures
            *r == self@.socket,
    {
        &self.socket
    }
}

/// A socket that the host agreed to connect to `peer` has exactly `peer` as
/// its peer and is the socket that was handed in; and only the host's
/// agreement makes one.
pub proof fn lemma_connect_fixes_peer<S>(socket: S, peer: SocketAddress, outcome: Result<(), Error>)
    ensures
        Association::connect(socket, peer, outcome) is Ok <==> outcome is Ok,
        Association::connect(socket, peer, outcome) matches Ok(a) ==> a.peer == peer && a.socket
            == socket,
{
}

/// A socket that the host reports as connected to `peer` converts, and the
/// result has the peer that the host reported.
pub proof fn lemma_try_from_takes_host_peer<S>(socket: S, peer: SocketAddress)
    ensures
        Association::try_from(socket, Ok(peer)) matches Ok(a) && a.peer == peer && a.socket
            == socket,
{
}

/// A socket whose peer the host cannot name does not convert, and the failure
/// is the host's own: a socket that the host reports as not connected fails as
/// not connected.
pub proof fn lemma_try_from_hands_on_failure<S>(socket: S, e: Error)
    ensures
        Association::try_from(socket, Err(e)) matches Err(f) && f == e,
        e.kind == ErrorKind::NotConnected ==> (Association::try_from(socket, Err(e)) matches Err(f)
            && f.kind == ErrorKind::NotConnected),
{
}

} // verus!
