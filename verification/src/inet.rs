use vstd::prelude::*;

verus! {

/// The network address of a peer, exactly as it stands in a received
/// datagram.
///
/// The address is a plain value: the IP address packed into a 128-bit
/// integer (an IPv4 address stands in the usual IPv4-mapped form) together
/// with the transport port. Two attempts come from the same peer exactly
/// when their addresses are equal field for field.
#[derive(Clone, Copy, Debug, PartialEq, Eq, Hash, Structural)]
pub struct SocketAddress {
    /// The IP address, packed into 128 bits.
    pub ip: u128,
    /// The transport-layer port.
    pub port: u16,
}

impl SocketAddress {
    /// Builds the address with the given packed IP and port.
    pub fn new(ip: u128, port: u16) -> (address: SocketAddress)
        ensures
            address.ip == ip,
            address.port == port,
    {
        SocketAddress { ip, port }
    }
}

} // verus!
