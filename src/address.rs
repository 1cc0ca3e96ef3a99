use vstd::prelude::*;

verus! {

/// A network endpoint: an IP address and a port, held as plain values.
///
/// An IPv4 address is kept as its four octets in network order, an IPv6
/// address as its eight 16-bit segments, together with the flow label and
/// scope identifier that an IPv6 socket address carries.
#[derive(Clone, Copy, Debug, PartialEq, Eq, Hash)]
pub enum SocketAddress {
    V4 { octets: [u8; 4], port: u16 },
    V6 { segments: [u16; 8], port: u16, flowinfo: u32, scope_id: u32 },
}

} // verus!
