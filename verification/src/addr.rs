//! Socket addresses as plain values.

use vstd::prelude::*;

verus! {

/// The address of one endpoint of a datagram exchange: an IP address and a
/// port. The IP address is held as one number, its first octet the most
/// significant, so that 127.0.0.1 is `0x7f00_0001`; a version 6 address has
/// with it the flow information and scope identifier that travel with it.
///
/// Two addresses are the same address only if every field agrees.
#[derive(Clone, Copy, Debug, PartialEq, Eq, Hash, Structural)]
pub enum SocketAddress {
    V4 { ipv4: u32, port: u16 },
    V6 { ipv6: u128, port: u16, flowinfo: u32, scope_id: u32 },
}

} // verus!
