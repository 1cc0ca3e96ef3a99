//! A staging buffer for outbound network messages, together with the
//! link-condition values (frame budget, latency, packet loss) that a
//! transport reports about the connection it serves.

pub mod address;
pub mod message;
pub mod selection;
pub mod transport;

pub use address::SocketAddress;
pub use message::Message;
pub use transport::{Transport, TransportView};
