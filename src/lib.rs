//! Client side of the SOCKS5 connection handshake: the client configuration,
//! the wire encoding of destinations and requests, and the handshake engine as
//! a state machine that the caller drives over its own byte stream.

pub mod proxy;
pub mod socks_v5;
pub mod wire;
