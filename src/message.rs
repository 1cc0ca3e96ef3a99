use vstd::prelude::*;

use crate::address::SocketAddress;

verus! {

/// A payload addressed to a remote peer.
#[derive(Debug, PartialEq, Eq)]
pub struct Message {
    /// Where the payload is to be delivered.
    pub destination: SocketAddress,
    /// The bytes to deliver, opaque to this library.
    pub payload: Vec<u8>,
}

impl Message {
    /// Creates a message for `destination` holding a copy of `payload`.
    pub fn new(destination: SocketAddress, payload: &[u8]) -> (r: Message)
        ensures
            r.destination == destination,
            r.payload@ == payload@,
    {
        Message { destination, payload: vstd::slice::slice_to_vec(payload) }
    }
}

} // verus!
